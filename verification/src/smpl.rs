//! The 22 joints of the pose stream: names, kinematic tree, axes.
use vstd::prelude::*;

verus! {

/// The parent of a joint in the kinematic tree; the pelvis has none.
pub open spec fn parent_of(i: int) -> Option<int> {
    if i == 0 {
        None
    } else if i == 1 {
        Some(0)
    } else if i == 2 {
        Some(0)
    } else if i == 3 {
        Some(0)
    } else if i == 4 {
        Some(1)
    } else if i == 5 {
        Some(2)
    } else if i == 6 {
        Some(3)
    } else if i == 7 {
        Some(4)
    } else if i == 8 {
        Some(5)
    } else if i == 9 {
        Some(6)
    } else if i == 10 {
        Some(7)
    } else if i == 11 {
        Some(8)
    } else if i == 12 {
        Some(9)
    } else if i == 13 {
        Some(9)
    } else if i == 14 {
        Some(9)
    } else if i == 15 {
        Some(12)
    } else if i == 16 {
        Some(13)
    } else if i == 17 {
        Some(14)
    } else if i == 18 {
        Some(16)
    } else if i == 19 {
        Some(17)
    } else if i == 20 {
        Some(18)
    } else {
        Some(19)
    }
}

/// The joint that a joint points to; leaves point to none.
pub open spec fn child_of(i: int) -> Option<int> {
    if i == 0 {
        Some(3)
    } else if i == 1 {
        Some(4)
    } else if i == 2 {
        Some(5)
    } else if i == 3 {
        Some(6)
    } else if i == 4 {
        Some(7)
    } else if i == 5 {
        Some(8)
    } else if i == 6 {
        Some(9)
    } else if i == 7 {
        Some(10)
    } else if i == 8 {
        Some(11)
    } else if i == 9 {
        Some(12)
    } else if i == 10 {
        None
    } else if i == 11 {
        None
    } else if i == 12 {
        Some(15)
    } else if i == 13 {
        Some(16)
    } else if i == 14 {
        Some(17)
    } else if i == 15 {
        None
    } else if i == 16 {
        Some(18)
    } else if i == 17 {
        Some(19)
    } else if i == 18 {
        Some(20)
    } else if i == 19 {
        Some(21)
    } else if i == 20 {
        None
    } else {
        None
    }
}

/// The direction in which a joint points in the unrotated pose.
pub open spec fn axis_of(i: int) -> Seq<i8> {
    if i == 0 || i == 3 || i == 6 || i == 9 || i == 12 || i == 15 {
        seq![0i8, 1i8, 0i8]
    } else if i == 1 || i == 2 || i == 4 || i == 5 {
        seq![0i8, -1i8, 0i8]
    } else if i == 7 || i == 8 || i == 10 || i == 11 {
        seq![0i8, 0i8, 1i8]
    } else if i == 13 || i == 16 || i == 18 || i == 20 {
        seq![1i8, 0i8, 0i8]
    } else {
        seq![-1i8, 0i8, 0i8]
    }
}

/// The name of a joint in the pose stream.
pub open spec fn name_of(i: int) -> Seq<char> {
    if i == 0 {
        "Pelvis"@
    } else if i == 1 {
        "L_Hip"@
    } else if i == 2 {
        "R_Hip"@
    } else if i == 3 {
        "Spine1"@
    } else if i == 4 {
        "L_Knee"@
    } else if i == 5 {
        "R_Knee"@
    } else if i == 6 {
        "Spine2"@
    } else if i == 7 {
        "L_Ankle"@
    } else if i == 8 {
        "R_Ankle"@
    } else if i == 9 {
        "Spine3"@
    } else if i == 10 {
        "L_Foot"@
    } else if i == 11 {
        "R_Foot"@
    } else if i == 12 {
        "Neck"@
    } else if i == 13 {
        "L_Collar"@
    } else if i == 14 {
        "R_Collar"@
    } else if i == 15 {
        "Head"@
    } else if i == 16 {
        "L_Shoulder"@
    } else if i == 17 {
        "R_Shoulder"@
    } else if i == 18 {
        "L_Elbow"@
    } else if i == 19 {
        "R_Elbow"@
    } else if i == 20 {
        "L_Wrist"@
    } else {
        "R_Wrist"@
    }
}

/// The name of the avatar's bone that a joint drives.
pub open spec fn bone_of(i: int) -> Seq<char> {
    if i == 0 {
        "CC_Base_Hip"@
    } else if i == 1 {
        "CC_Base_L_Thigh"@
    } else if i == 2 {
        "CC_Base_R_Thigh"@
    } else if i == 3 {
        "CC_Base_Waist"@
    } else if i == 4 {
        "CC_Base_L_Calf"@
    } else if i == 5 {
        "CC_Base_R_Calf"@
    } else if i == 6 {
        "CC_Base_Spine01"@
    } else if i == 7 {
        "CC_Base_L_Foot"@
    } else if i == 8 {
        "CC_Base_R_Foot"@
    } else if i == 9 {
        "CC_Base_Spine02"@
    } else if i == 10 {
        "CC_Base_L_ToeBase"@
    } else if i == 11 {
        "CC_Base_R_ToeBase"@
    } else if i == 12 {
        "CC_Base_NeckTwist01"@
    } else if i == 13 {
        "CC_Base_L_Clavicle"@
    } else if i == 14 {
        "CC_Base_R_Clavicle"@
    } else if i == 15 {
        "CC_Base_Head"@
    } else if i == 16 {
        "CC_Base_L_Upperarm"@
    } else if i == 17 {
        "CC_Base_R_Upperarm"@
    } else if i == 18 {
        "CC_Base_L_Forearm"@
    } else if i == 19 {
        "CC_Base_R_Forearm"@
    } else if i == 20 {
        "CC_Base_L_Hand"@
    } else {
        "CC_Base_R_Hand"@
    }
}

/// The parent of a joint; the pelvis has none.
pub fn parent(i: usize) -> (r: Option<usize>)
    requires
        i < 22,
    ensures
        r is Some == parent_of(i as int) is Some,
        r matches Some(p) ==> p == parent_of(i as int)->0 && p < i,
{
    if i == 0 {
        None
    } else if i == 1 {
        Some(0)
    } else if i == 2 {
        Some(0)
    } else if i == 3 {
        Some(0)
    } else if i == 4 {
        Some(1)
    } else if i == 5 {
        Some(2)
    } else if i == 6 {
        Some(3)
    } else if i == 7 {
        Some(4)
    } else if i == 8 {
        Some(5)
    } else if i == 9 {
        Some(6)
    } else if i == 10 {
        Some(7)
    } else if i == 11 {
        Some(8)
    } else if i == 12 {
        Some(9)
    } else if i == 13 {
        Some(9)
    } else if i == 14 {
        Some(9)
    } else if i == 15 {
        Some(12)
    } else if i == 16 {
        Some(13)
    } else if i == 17 {
        Some(14)
    } else if i == 18 {
        Some(16)
    } else if i == 19 {
        Some(17)
    } else if i == 20 {
        Some(18)
    } else {
        Some(19)
    }
}

/// The joint that a joint points to; leaves point to none.
pub fn primary_child(i: usize) -> (r: Option<usize>)
    requires
        i < 22,
    ensures
        r is Some == child_of(i as int) is Some,
        r matches Some(c) ==> c == child_of(i as int)->0 && i < c < 22,
{
    if i == 0 {
        Some(3)
    } else if i == 1 {
        Some(4)
    } else if i == 2 {
        Some(5)
    } else if i == 3 {
        Some(6)
    } else if i == 4 {
        Some(7)
    } else if i == 5 {
        Some(8)
    } else if i == 6 {
        Some(9)
    } else if i == 7 {
        Some(10)
    } else if i == 8 {
        Some(11)
    } else if i == 9 {
        Some(12)
    } else if i == 10 {
        None
    } else if i == 11 {
        None
    } else if i == 12 {
        Some(15)
    } else if i == 13 {
        Some(16)
    } else if i == 14 {
        Some(17)
    } else if i == 15 {
        None
    } else if i == 16 {
        Some(18)
    } else if i == 17 {
        Some(19)
    } else if i == 18 {
        Some(20)
    } else if i == 19 {
        Some(21)
    } else if i == 20 {
        None
    } else {
        None
    }
}

/// The direction in which a joint points in the unrotated pose.
pub fn bone_axis(i: usize) -> (r: [i8; 3])
    requires
        i < 22,
    ensures
        r@ == axis_of(i as int),
{
    let r = if i == 0 || i == 3 || i == 6 || i == 9 || i == 12 || i == 15 {
        [0i8, 1i8, 0i8]
    } else if i == 1 || i == 2 || i == 4 || i == 5 {
        [0i8, -1i8, 0i8]
    } else if i == 7 || i == 8 || i == 10 || i == 11 {
        [0i8, 0i8, 1i8]
    } else if i == 13 || i == 16 || i == 18 || i == 20 {
        [1i8, 0i8, 0i8]
    } else {
        [-1i8, 0i8, 0i8]
    };
    assert(r@ =~= axis_of(i as int));
    r
}

/// The name of a joint in the pose stream.
pub fn smpl_name(i: usize) -> (r: &'static str)
    requires
        i < 22,
    ensures
        r@ == name_of(i as int),
{
    if i == 0 {
        "Pelvis"
    } else if i == 1 {
        "L_Hip"
    } else if i == 2 {
        "R_Hip"
    } else if i == 3 {
        "Spine1"
    } else if i == 4 {
        "L_Knee"
    } else if i == 5 {
        "R_Knee"
    } else if i == 6 {
        "Spine2"
    } else if i == 7 {
        "L_Ankle"
    } else if i == 8 {
        "R_Ankle"
    } else if i == 9 {
        "Spine3"
    } else if i == 10 {
        "L_Foot"
    } else if i == 11 {
        "R_Foot"
    } else if i == 12 {
        "Neck"
    } else if i == 13 {
        "L_Collar"
    } else if i == 14 {
        "R_Collar"
    } else if i == 15 {
        "Head"
    } else if i == 16 {
        "L_Shoulder"
    } else if i == 17 {
        "R_Shoulder"
    } else if i == 18 {
        "L_Elbow"
    } else if i == 19 {
        "R_Elbow"
    } else if i == 20 {
        "L_Wrist"
    } else {
        "R_Wrist"
    }
}

/// The name of the avatar's bone that a joint drives.
pub fn cc5_name(i: usize) -> (r: &'static str)
    requires
        i < 22,
    ensures
        r@ == bone_of(i as int),
{
    if i == 0 {
        "CC_Base_Hip"
    } else if i == 1 {
        "CC_Base_L_Thigh"
    } else if i == 2 {
        "CC_Base_R_Thigh"
    } else if i == 3 {
        "CC_Base_Waist"
    } else if i == 4 {
        "CC_Base_L_Calf"
    } else if i == 5 {
        "CC_Base_R_Calf"
    } else if i == 6 {
        "CC_Base_Spine01"
    } else if i == 7 {
        "CC_Base_L_Foot"
    } else if i == 8 {
        "CC_Base_R_Foot"
    } else if i == 9 {
        "CC_Base_Spine02"
    } else if i == 10 {
        "CC_Base_L_ToeBase"
    } else if i == 11 {
        "CC_Base_R_ToeBase"
    } else if i == 12 {
        "CC_Base_NeckTwist01"
    } else if i == 13 {
        "CC_Base_L_Clavicle"
    } else if i == 14 {
        "CC_Base_R_Clavicle"
    } else if i == 15 {
        "CC_Base_Head"
    } else if i == 16 {
        "CC_Base_L_Upperarm"
    } else if i == 17 {
        "CC_Base_R_Upperarm"
    } else if i == 18 {
        "CC_Base_L_Forearm"
    } else if i == 19 {
        "CC_Base_R_Forearm"
    } else if i == 20 {
        "CC_Base_L_Hand"
    } else {
        "CC_Base_R_Hand"
    }
}

/// Every joint comes after its parent, so that one pass in index order visits
/// parents before children; only the pelvis has no parent.
pub proof fn law_parents_come_first(i: int)
    requires
        0 <= i < 22,
    ensures
        parent_of(i) is None == (i == 0),
        parent_of(i) matches Some(p) ==> 0 <= p < i,
{
}

/// The joint that a joint points to is one of its children.
pub proof fn law_child_belongs_to_parent(i: int)
    requires
        0 <= i < 22,
    ensures
        child_of(i) matches Some(c) ==> i < c < 22 && parent_of(c) == Some(i),
{
}

/// A joint that points to none has no children at all.
pub proof fn law_leaves_have_no_children(i: int, j: int)
    requires
        0 <= i < 22,
        0 <= j < 22,
        child_of(i) is None,
    ensures
        parent_of(j) != Some(i),
{
}

/// Every axis is a unit vector along one coordinate.
pub proof fn law_axes_are_units(i: int)
    requires
        0 <= i < 22,
    ensures
        axis_of(i).len() == 3,
        axis_of(i)[0] * axis_of(i)[0] + axis_of(i)[1] * axis_of(i)[1] + axis_of(i)[2] * axis_of(
            i,
        )[2] == 1,
{
    let (x, y, z) = (axis_of(i)[0] as int, axis_of(i)[1] as int, axis_of(i)[2] as int);
    assert(x * x + y * y + z * z == 1) by (nonlinear_arith)
        requires
            (x, y, z) == (0int, 1int, 0int) || (x, y, z) == (0int, -1int, 0int) || (x, y, z) == (
                0int,
                0int,
                1int,
            ) || (x, y, z) == (1int, 0int, 0int) || (x, y, z) == (-1int, 0int, 0int),
    ;
}

/// A leaf points the way its parent does.
pub proof fn law_leaf_axes(i: int)
    requires
        0 <= i < 22,
        child_of(i) is None,
    ensures
        axis_of(i) == axis_of(parent_of(i)->0),
{
}

} // verus!
