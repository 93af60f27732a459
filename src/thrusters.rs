//! Thruster geometry as read from configuration, and the fixed order in which
//! thrusters become columns of the allocation matrix.
//!
//! The geometry is generic over its scalar type: the library checks the shape
//! of each record and resolves names to records, and leaves the arithmetic on
//! the coordinates to its caller.

use vstd::prelude::*;

verus! {

/// A vector-valued field of a thruster record.
#[derive(Debug, Clone, Copy, PartialEq, Eq, Structural)]
pub enum VectorField {
    Position,
    Direction,
    ThrustBounds,
}

/// A configuration that cannot yield a thruster geometry set.
#[derive(Debug)]
pub enum ConfigError {
    /// The configuration has no thruster of this name.
    MissingThruster(String),
    /// A vector field holds `found` values where it needs `expected`.
    WrongArity { field: VectorField, expected: usize, found: usize },
}

/// The physical description of one thruster: where it sits on the vehicle,
/// which way it pushes, and the (min, max) thrust it can give.
#[derive(Debug)]
pub struct ThrusterSpec<T> {
    pub id: u32,
    pub position: (T, T, T),
    pub direction: (T, T, T),
    pub thrust_bounds: (T, T),
}

/// The number of values that each vector field holds.
pub open spec fn arity(field: VectorField) -> nat {
    match field {
        VectorField::ThrustBounds => 2,
        _ => 3,
    }
}

/// The first field, in record order, whose length is wrong, if any.
pub open spec fn first_bad_field(pos_len: nat, dir_len: nat, bounds_len: nat) -> Option<
    (VectorField, nat),
> {
    if pos_len != 3 {
        Some((VectorField::Position, pos_len))
    } else if dir_len != 3 {
        Some((VectorField::Direction, dir_len))
    } else if bounds_len != 2 {
        Some((VectorField::ThrustBounds, bounds_len))
    } else {
        None
    }
}

/// The three values of `v`, or the arity error for `field` when it does not
/// hold exactly three.
pub fn vector3<T>(field: VectorField, v: Vec<T>) -> (r: Result<(T, T, T), ConfigError>)
    ensures
        v@.len() == 3 <==> r is Ok,
        r matches Ok(t) ==> t == (v@[0], v@[1], v@[2]),
        v@.len() != 3 ==> r == Err::<(T, T, T), ConfigError>(
            ConfigError::WrongArity { field, expected: 3, found: v.len() },
        ),
{
    if v.len() != 3 {
        return Err(ConfigError::WrongArity { field, expected: 3, found: v.len() });
    }
    let mut v = v;
    let z = v.pop();
    let y = v.pop();
    let x = v.pop();
    match (x, y, z) {
        (Some(x), Some(y), Some(z)) => Ok((x, y, z)),
        _ => Err(ConfigError::WrongArity { field, expected: 3, found: 0 }),
    }
}

/// The two values of `v`, or the arity error for `field` when it does not
/// hold exactly two.
pub fn vector2<T>(field: VectorField, v: Vec<T>) -> (r: Result<(T, T), ConfigError>)
    ensures
        v@.len() == 2 <==> r is Ok,
        r matches Ok(t) ==> t == (v@[0], v@[1]),
        v@.len() != 2 ==> r == Err::<(T, T), ConfigError>(
            ConfigError::WrongArity { field, expected: 2, found: v.len() },
        ),
{
    if v.len() != 2 {
        return Err(ConfigError::WrongArity { field, expected: 2, found: v.len() });
    }
    let mut v = v;
    let y = v.pop();
    let x = v.pop();
    match (x, y) {
        (Some(x), Some(y)) => Ok((x, y)),
        _ => Err(ConfigError::WrongArity { field, expected: 2, found: 0 }),
    }
}

/// Builds a thruster's geometry from the fields of its configuration record,
/// checking that position and direction hold three values and the thrust
/// bounds two. The first field in that order with the wrong number of values
/// is the one reported.
pub fn thruster_spec<T>(node_id: u32, position: Vec<T>, direction: Vec<T>, thrust_bounds: Vec<T>) -> (r:
    Result<ThrusterSpec<T>, ConfigError>)
    ensures
        first_bad_field(position@.len(), direction@.len(), thrust_bounds@.len()) is None <==> r is Ok,
        r matches Ok(t) ==> {
            &&& t.id == node_id
            &&& t.position == (position@[0], position@[1], position@[2])
            &&& t.direction == (direction@[0], direction@[1], direction@[2])
            &&& t.thrust_bounds == (thrust_bounds@[0], thrust_bounds@[1])
        },
        first_bad_field(position@.len(), direction@.len(), thrust_bounds@.len()) matches Some(
            bad,
        ) ==> r matches Err(ConfigError::WrongArity { field, expected, found }) && field == bad.0
            && expected == arity(bad.0) && found == bad.1,
{
    let pos_len = position.len();
    let dir_len = direction.len();
    let bounds_len = thrust_bounds.len();
    let position = match vector3(VectorField::Position, position) {
        Ok(p) => p,
        Err(e) => return Err(e),
    };
    let direction = match vector3(VectorField::Direction, direction) {
        Ok(d) => d,
        Err(e) => return Err(e),
    };
    let thrust_bounds = match vector2(VectorField::ThrustBounds, thrust_bounds) {
        Ok(b) => b,
        Err(e) => return Err(e),
    };
    Ok(ThrusterSpec { id: node_id, position, direction, thrust_bounds })
}

/// The canonical column order of the allocation matrix: front-left,
/// front-right, back-left and back-right mounts, each with its horizontal
/// thruster before its vertical one.
pub fn thruster_order() -> (r: Vec<String>)
    ensures
        r@.map_values(|s: String| s@) == seq![
            "FLH"@,
            "FLV"@,
            "FRH"@,
            "FRV"@,
            "BLH"@,
            "BLV"@,
            "BRH"@,
            "BRV"@,
        ],
{
    let mut r: Vec<String> = Vec::new();
    r.push("FLH".to_owned());
    r.push("FLV".to_owned());
    r.push("FRH".to_owned());
    r.push("FRV".to_owned());
    r.push("BLH".to_owned());
    r.push("BLV".to_owned());
    r.push("BRH".to_owned());
    r.push("BRV".to_owned());
    assert(r@.map_values(|s: String| s@) =~= seq![
        "FLH"@,
        "FLV"@,
        "FRH"@,
        "FRV"@,
        "BLH"@,
        "BLV"@,
        "BRH"@,
        "BRV"@,
    ]);
    r
}

/// Whether some entry of `names` is `key`.
pub open spec fn has_name(names: Seq<String>, key: Seq<char>) -> bool {
    exists|j: int| 0 <= j < names.len() && names[j]@ == key
}

/// Whether `j` is the first entry of `names` that is `key`.
pub open spec fn is_first_index(names: Seq<String>, key: Seq<char>, j: int) -> bool {
    &&& 0 <= j < names.len()
    &&& names[j]@ == key
    &&& forall|i: int| 0 <= i < j ==> names[i]@ != key
}

/// The first entry of `names` that is `key`, if any.
fn find_name(names: &Vec<String>, key: &String) -> (r: Option<usize>)
    ensures
        r is None <==> !has_name(names@, key@),
        r matches Some(j) ==> is_first_index(names@, key@, j as int),
{
    let mut j: usize = 0;
    while j < names.len()
        invariant
            j <= names@.len(),
            forall|i: int| 0 <= i < j ==> names@[i]@ != key@,
        decreases names@.len() - j,
    {
        if names[j] == *key {
            return Some(j);
        }
        j = j + 1;
    }
    None
}

/// Resolves each thruster name of `order`, in order, to the index of the
/// configuration record of that name among `names` (the first, should a name
/// occur twice). The `i`-th column of the allocation matrix belongs to the
/// record at the `i`-th index. Fails on the first name of `order` that no
/// record has.
pub fn resolve_column_order(order: &Vec<String>, names: &Vec<String>) -> (r: Result<
    Vec<usize>,
    ConfigError,
>)
    ensures
        (forall|i: int| 0 <= i < order@.len() ==> has_name(names@, order@[i]@)) <==> r is Ok,
        r matches Ok(idx) ==> {
            &&& idx@.len() == order@.len()
            &&& forall|i: int|
                0 <= i < order@.len() ==> is_first_index(names@, order@[i]@, idx@[i] as int)
        },
        r matches Err(e) ==> exists|i: int|
            {
                &&& 0 <= i < order@.len()
                &&& !has_name(names@, order@[i]@)
                &&& forall|h: int| 0 <= h < i ==> has_name(names@, order@[h]@)
                &&& e matches ConfigError::MissingThruster(n) && n@ == order@[i]@
            },
{
    let mut idx: Vec<usize> = Vec::new();
    let mut i: usize = 0;
    while i < order.len()
        invariant
            i <= order@.len(),
            idx@.len() == i,
            forall|h: int| 0 <= h < i ==> has_name(names@, order@[h]@),
            forall|h: int| 0 <= h < i ==> is_first_index(names@, order@[h]@, idx@[h] as int),
        decreases order@.len() - i,
    {
        match find_name(names, &order[i]) {
            Some(j) => idx.push(j),
            None => {
                let missing = order[i].clone();
                return Err(ConfigError::MissingThruster(missing));
            },
        }
        i = i + 1;
    }
    Ok(idx)
}

} // verus!
