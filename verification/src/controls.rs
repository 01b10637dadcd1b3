use vstd::prelude::*;

verus! {

/// A camera move that the keyboard can ask for.
#[derive(Debug, Clone, Copy, PartialEq, Eq, Structural)]
pub enum CameraMove {
    Forward,
    Backward,
    Left,
    Right,
}

/// Direction along which a move shifts the camera.
#[derive(Debug, Clone, Copy, PartialEq, Eq, Structural)]
pub enum MoveAxis {
    /// From the eye towards the target.
    View,
    /// The view direction crossed with the up vector.
    Side,
}

/// The moves, in the order in which a frame applies them.
pub open spec fn move_order() -> Seq<CameraMove> {
    seq![CameraMove::Forward, CameraMove::Backward, CameraMove::Left, CameraMove::Right]
}

/// The moves in the order in which a frame applies them.
pub fn camera_moves() -> (moves: Vec<CameraMove>)
    ensures
        moves@ == move_order(),
{
    vec![CameraMove::Forward, CameraMove::Backward, CameraMove::Left, CameraMove::Right]
}

/// The two keys (lower and upper case) that ask for a move.
pub fn move_keys(m: CameraMove) -> (keys: (&'static str, &'static str))
    ensures
        keys.0@ == match m {
            CameraMove::Forward => "w"@,
            CameraMove::Backward => "s"@,
            CameraMove::Left => "a"@,
            CameraMove::Right => "d"@,
        },
        keys.1@ == match m {
            CameraMove::Forward => "W"@,
            CameraMove::Backward => "S"@,
            CameraMove::Left => "A"@,
            CameraMove::Right => "D"@,
        },
{
    match m {
        CameraMove::Forward => ("w", "W"),
        CameraMove::Backward => ("s", "S"),
        CameraMove::Left => ("a", "A"),
        CameraMove::Right => ("d", "D"),
    }
}

/// The axis a move shifts the camera along, and whether it goes the axis's way
/// (`true`) or against it.
pub fn move_direction(m: CameraMove) -> (dir: (MoveAxis, bool))
    ensures
        dir == match m {
            CameraMove::Forward => (MoveAxis::View, true),
            CameraMove::Backward => (MoveAxis::View, false),
            CameraMove::Left => (MoveAxis::Side, false),
            CameraMove::Right => (MoveAxis::Side, true),
        },
{
    match m {
        CameraMove::Forward => (MoveAxis::View, true),
        CameraMove::Backward => (MoveAxis::View, false),
        CameraMove::Left => (MoveAxis::Side, false),
        CameraMove::Right => (MoveAxis::Side, true),
    }
}

} // verus!
