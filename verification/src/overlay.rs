//! What the debug overlays show, and when.
use crate::json::Num;
use crate::smpl;
use crate::text;
use vstd::prelude::*;
use vstd::string::*;

verus! {

/// What a collider belongs to.
#[derive(Clone, Copy, Debug, PartialEq, Eq, Structural)]
pub enum Category {
    Body,
    Prop,
    Jiggle,
    Static,
    Other,
}

/// A colour by its red, green and blue parts.
#[derive(Clone, Copy, Debug, PartialEq, Eq, Structural)]
pub struct Rgb {
    pub red: u8,
    pub green: u8,
    pub blue: u8,
}

impl Category {
    /// The colour of a category: aqua, yellow, magenta, gray and red.
    pub open spec fn shade(self) -> Rgb {
        match self {
            Category::Body => Rgb { red: 0, green: 255, blue: 255 },
            Category::Prop => Rgb { red: 255, green: 255, blue: 0 },
            Category::Jiggle => Rgb { red: 255, green: 0, blue: 255 },
            Category::Static => Rgb { red: 128, green: 128, blue: 128 },
            Category::Other => Rgb { red: 255, green: 0, blue: 0 },
        }
    }

    /// The colour that colliders of this category are drawn in.
    pub fn color(self) -> (r: Rgb)
        ensures
            r == self.shade(),
    {
        match self {
            Category::Body => Rgb { red: 0, green: 255, blue: 255 },
            Category::Prop => Rgb { red: 255, green: 255, blue: 0 },
            Category::Jiggle => Rgb { red: 255, green: 0, blue: 255 },
            Category::Static => Rgb { red: 128, green: 128, blue: 128 },
            Category::Other => Rgb { red: 255, green: 0, blue: 0 },
        }
    }
}

/// The category of a collider with these tags: the first that applies of body,
/// jiggle, prop and static.
pub open spec fn category_of(is_body: bool, is_prop: bool, is_jiggle: bool, is_static: bool)
    -> Category {
    if is_body {
        Category::Body
    } else if is_jiggle {
        Category::Jiggle
    } else if is_prop {
        Category::Prop
    } else if is_static {
        Category::Static
    } else {
        Category::Other
    }
}

/// The category of a collider with these tags.
pub fn classify(is_body: bool, is_prop: bool, is_jiggle: bool, is_static: bool) -> (r: Category)
    ensures
        r == category_of(is_body, is_prop, is_jiggle, is_static),
{
    if is_body {
        return Category::Body;
    }
    if is_jiggle {
        return Category::Jiggle;
    }
    if is_prop {
        return Category::Prop;
    }
    if is_static {
        return Category::Static;
    }
    Category::Other
}

/// No two categories share a colour.
pub proof fn law_colors_tell_categories_apart(a: Category, b: Category)
    requires
        a.shade() == b.shade(),
    ensures
        a == b,
{
}

/// Whether a setting switches a feature on that is off by default: it is `1`.
pub fn is_switched_on(setting: Option<&str>) -> (r: bool)
    ensures
        r == (setting matches Some(s) && s@ == "1"@),
{
    match setting {
        Some(s) => text::same(s, "1"),
        None => false,
    }
}

/// Whether a setting leaves a feature on that is on by default: it is not `0`.
pub fn is_left_on(setting: Option<&str>) -> (r: bool)
    ensures
        r == !(setting matches Some(s) && s@ == "0"@),
{
    match setting {
        Some(s) => !text::same(s, "0"),
        None => true,
    }
}

/// Whether the overlay of colliders is drawn.
#[derive(Clone, Copy, Debug, PartialEq, Eq, Structural)]
pub struct PhysicsDebugConfig {
    pub enabled: bool,
}

impl PhysicsDebugConfig {
    /// From the value of its environment variable, if that is set.
    pub fn from_env(setting: Option<&str>) -> (r: Self)
        ensures
            r.enabled == (setting matches Some(s) && s@ == "1"@),
    {
        PhysicsDebugConfig { enabled: is_switched_on(setting) }
    }
}

/// A measurement that a setting gives, or its default where the setting is
/// missing or unreadable.
pub open spec fn setting_or<F>(
    setting: Option<Seq<char>>,
    default: F,
    p: spec_fn(Seq<char>) -> Option<F>,
) -> F {
    match setting {
        Some(s) => match p(s) {
            Some(v) => v,
            None => default,
        },
        None => default,
    }
}

/// What `parse` makes of a text.
pub open spec fn reads<F, P: Fn(&str) -> Option<F>>(
    parse: P,
    p: spec_fn(Seq<char>) -> Option<F>,
) -> bool {
    forall|s: &str, r: Option<F>| #[trigger] call_ensures(parse, (s,), r) ==> r == p(s@)
}

/// The text of a setting.
pub open spec fn text_of(setting: Option<&str>) -> Option<Seq<char>> {
    match setting {
        Some(s) => Some(s@),
        None => None,
    }
}

/// A measurement that a setting gives, or its default.
pub fn read_setting<F, P: Fn(&str) -> Option<F>>(
    setting: Option<&str>,
    default: F,
    parse: &P,
) -> (r: F)
    requires
        forall|s: &str| call_requires(*parse, (s,)),
    ensures
        forall|p: spec_fn(Seq<char>) -> Option<F>| #[trigger]
            reads(*parse, p) ==> r == setting_or(text_of(setting), default, p),
{
    match setting {
        Some(s) => match parse(s) {
            Some(v) => v,
            None => default,
        },
        None => default,
    }
}

/// How joints are drawn.
#[derive(Clone, Copy, Debug, PartialEq, Eq)]
pub struct JointDebugConfig<F> {
    pub enabled: bool,
    /// Length of the axes at a joint, in metres.
    pub axis_len: F,
    /// Radius of the ball at a joint, in metres.
    pub marker_radius: F,
    pub label_font_size: F,
}

impl<F> JointDebugConfig<F> {
    /// From the values of its environment variables, as far as they are set and
    /// readable, and from `usual` otherwise.
    pub fn from_env<P: Fn(&str) -> Option<F>>(
        enabled: Option<&str>,
        axis_len: Option<&str>,
        marker_radius: Option<&str>,
        label_font_size: Option<&str>,
        usual: JointDebugConfig<F>,
        parse: &P,
    ) -> (r: Self)
        requires
            forall|s: &str| call_requires(*parse, (s,)),
        ensures
            r.enabled == (enabled matches Some(s) && s@ == "1"@),
            forall|p: spec_fn(Seq<char>) -> Option<F>| #[trigger]
                reads(*parse, p) ==> {
                    &&& r.axis_len == setting_or(text_of(axis_len), usual.axis_len, p)
                    &&& r.marker_radius == setting_or(
                        text_of(marker_radius),
                        usual.marker_radius,
                        p,
                    )
                    &&& r.label_font_size == setting_or(
                        text_of(label_font_size),
                        usual.label_font_size,
                        p,
                    )
                },
    {
        JointDebugConfig {
            enabled: is_switched_on(enabled),
            axis_len: read_setting(axis_len, usual.axis_len, parse),
            marker_radius: read_setting(marker_radius, usual.marker_radius, parse),
            label_font_size: read_setting(label_font_size, usual.label_font_size, parse),
        }
    }
}

impl Default for JointDebugConfig<Num> {
    /// Off; axes of six centimetres, balls of twelve millimetres, labels of
    /// eleven points.
    fn default() -> (r: Self)
        ensures
            !r.enabled,
            r.axis_len == Num::Thousandths(60),
            r.marker_radius == Num::Thousandths(12),
            r.label_font_size == Num::Thousandths(11000),
    {
        JointDebugConfig {
            enabled: false,
            axis_len: Num::Thousandths(60),
            marker_radius: Num::Thousandths(12),
            label_font_size: Num::Thousandths(11000),
        }
    }
}

/// The lines of a skeleton up to joint `n`: from each parent to its child, where
/// both are known.
pub open spec fn lines_of<P>(at: Seq<Option<P>>, n: nat) -> Seq<(P, P)>
    decreases n,
{
    if n == 0 {
        Seq::empty()
    } else {
        let i = n - 1;
        let init = lines_of(at, i as nat);
        match (at[i], smpl::parent_of(i)) {
            (Some(p), Some(up)) => match at[up] {
                Some(from) => init.push((from, p)),
                None => init,
            },
            _ => init,
        }
    }
}

/// The lines of a skeleton: from each parent to its child, where both are known.
pub fn joint_lines<P: Copy>(at: &[Option<P>; 22]) -> (r: Vec<(P, P)>)
    ensures
        r@ == lines_of(at@, 22),
{
    let mut out: Vec<(P, P)> = Vec::new();
    let mut i: usize = 0;
    while i < 22
        invariant
            i <= 22,
            out@ == lines_of(at@, i as nat),
        decreases 22 - i,
    {
        if let Some(p) = at[i] {
            if let Some(up) = smpl::parent(i) {
                if let Some(from) = at[up] {
                    out.push((from, p));
                }
            }
        }
        i = i + 1;
    }
    out
}

} // verus!
