//! Paths as text, with `/` between the components.
//!
//! `/` is the only separator: on a system that has another one besides it, the
//! caller writes paths with `/` before it hands them over, and a backslash is a
//! character like any other here. Drives and network prefixes are not taken apart.
//!
//! Repeated separators and components that are a single dot do not count, except
//! for a dot at the very start of a relative path.
use crate::sidecar;
use crate::text;
use vstd::prelude::*;
use vstd::string::*;

verus! {

/// Characters before the first component: the root, or the dot that a relative
/// path starts with.
pub open spec fn body_start(path: Seq<char>) -> nat {
    if path.len() >= 1 && path[0] == '/' {
        1
    } else if path.len() >= 1 && path[0] == '.' && (path.len() == 1 || path[1] == '/') {
        1
    } else {
        0
    }
}

/// Position behind the last separator at or behind `from`; `from` without one.
pub open spec fn last_start(s: Seq<char>, from: nat) -> nat
    decreases s.len(),
{
    if s.len() <= from {
        from
    } else if s.last() == '/' {
        s.len()
    } else {
        last_start(s.drop_last(), from)
    }
}

/// The last component, which may be empty.
pub open spec fn last_part(s: Seq<char>, from: nat) -> Seq<char> {
    s.subrange(last_start(s, from) as int, s.len() as int)
}

/// Everything before the last component and the separator in front of it.
pub open spec fn without_last(s: Seq<char>, from: nat) -> Seq<char> {
    let at = last_start(s, from);
    s.subrange(
        0,
        if at > from {
            at - 1
        } else {
            at as int
        },
    )
}

/// A component that does not count.
pub open spec fn is_filler(part: Seq<char>) -> bool {
    part == ""@ || part == "."@
}

/// `s` without the components at its end that do not count.
pub open spec fn trim_end(s: Seq<char>, from: nat) -> Seq<char>
    decreases s.len(),
    via trim_end_shrinks
{
    if s.len() <= from || !is_filler(last_part(s, from)) {
        s
    } else {
        trim_end(without_last(s, from), from)
    }
}

#[via_fn]
proof fn trim_end_shrinks(s: Seq<char>, from: nat) {
    if s.len() > from {
        lemma_last_start(s, from);
    }
}

/// The last component starts inside the path.
proof fn lemma_last_start(s: Seq<char>, from: nat)
    requires
        from <= s.len(),
    ensures
        from <= last_start(s, from) <= s.len(),
        last_start(s, from) > from ==> s[last_start(s, from) - 1] == '/',
        forall|k: int| last_start(s, from) <= k < s.len() ==> s[k] != '/',
        s.len() > from ==> without_last(s, from).len() < s.len(),
        from <= without_last(s, from).len(),
    decreases s.len(),
{
    if s.len() > from && s.last() != '/' {
        lemma_last_start(s.drop_last(), from);
        assert forall|k: int| last_start(s, from) <= k < s.len() implies s[k] != '/' by {
            if k < s.len() - 1 {
                assert(s.drop_last()[k] != '/');
            }
        }
    }
}

/// The last component that counts, unless it leads upwards.
pub open spec fn file_name_of(path: Seq<char>) -> Option<Seq<char>> {
    let from = body_start(path);
    let body = trim_end(path, from);
    if body.len() <= from || last_part(body, from) == ".."@ {
        None
    } else {
        Some(last_part(body, from))
    }
}

/// The path without its last component that counts; none for the root and for
/// the empty path.
pub open spec fn parent_of(path: Seq<char>) -> Option<Seq<char>> {
    let from = body_start(path);
    let body = trim_end(path, from);
    if body.len() > from {
        Some(trim_end(without_last(body, from), from))
    } else if from == 1 && path[0] == '.' {
        Some(""@)
    } else {
        None
    }
}

/// Position of the last dot.
pub open spec fn last_dot(s: Seq<char>) -> Option<nat>
    decreases s.len(),
{
    if s.len() == 0 {
        None
    } else if s.last() == '.' {
        Some((s.len() - 1) as nat)
    } else {
        last_dot(s.drop_last())
    }
}

/// A file name without its extension: what stands before the last dot, unless
/// nothing does.
pub open spec fn stem_of(name: Seq<char>) -> Seq<char> {
    match last_dot(name) {
        Some(at) => if at == 0 {
            name
        } else {
            name.subrange(0, at as int)
        },
        None => name,
    }
}

/// A component put behind a path.
pub open spec fn joined(dir: Seq<char>, name: Seq<char>) -> Seq<char> {
    if dir.len() == 0 || dir.last() == '/' {
        dir + name
    } else {
        dir + "/"@ + name
    }
}

/// Where the physics file of an avatar lies: next to it, under its own name with
/// `json` in place of the extension.
pub open spec fn cc5_path_of(glb: Seq<char>) -> Option<Seq<char>> {
    match (file_name_of(glb), parent_of(glb)) {
        (Some(name), Some(dir)) => Some(joined(dir, stem_of(name) + ".json"@)),
        _ => None,
    }
}

/// Characters before the first component.
fn find_body_start(c: &Vec<char>) -> (r: usize)
    ensures
        r == body_start(c@),
        r <= c@.len(),
{
    if c.len() >= 1 && c[0] == '/' {
        1
    } else if c.len() >= 1 && c[0] == '.' && (c.len() == 1 || c[1] == '/') {
        1
    } else {
        0
    }
}

/// Start of the last component of the first `n` characters.
fn find_last_start(c: &Vec<char>, from: usize, n: usize) -> (r: usize)
    requires
        from <= n <= c@.len(),
    ensures
        r == last_start(c@.take(n as int), from as nat),
        from <= r <= n,
{
    let mut k: usize = n;
    while k > from
        invariant
            from <= k <= n,
            n <= c@.len(),
            last_start(c@.take(n as int), from as nat) == last_start(
                c@.take(k as int),
                from as nat,
            ),
        decreases k - from,
    {
        assert(c@.take(k as int).last() == c@[k - 1]);
        assert(c@.take(k as int).drop_last() =~= c@.take(k - 1));
        if c[k - 1] == '/' {
            return k;
        }
        k = k - 1;
    }
    k
}

/// Length of what `trim_end` leaves of the first `n` characters.
fn find_trimmed_end(c: &Vec<char>, from: usize, n: usize) -> (r: usize)
    requires
        from <= n <= c@.len(),
    ensures
        from <= r <= n,
        trim_end(c@.take(n as int), from as nat) == c@.take(r as int),
{
    let mut end: usize = n;
    proof {
        reveal_strlit("");
        reveal_strlit(".");
    }
    while end > from
        invariant
            from <= end <= n,
            n <= c@.len(),
            "."@.len() == 1,
            "."@[0] == '.',
            ""@.len() == 0,
            trim_end(c@.take(n as int), from as nat) == trim_end(
                c@.take(end as int),
                from as nat,
            ),
        decreases end - from,
    {
        let start: usize = find_last_start(c, from, end);
        let ghost s = c@.take(end as int);
        let ghost part = last_part(s, from as nat);
        proof {
            lemma_last_start(s, from as nat);
            assert(part =~= c@.subrange(start as int, end as int));
        }
        let filler: bool = start == end || (end - start == 1 && c[start] == '.');
        proof {
            if start == end {
                assert(part =~= ""@);
            }
            if end - start == 1 && c@[start as int] == '.' {
                assert(part =~= "."@);
            }
            if part == "."@ {
                assert(part[0] == c@[start as int]);
            }
            assert(filler == is_filler(part));
        }
        if !filler {
            return end;
        }
        let next: usize = if start > from {
            start - 1
        } else {
            start
        };
        proof {
            assert(without_last(s, from as nat) =~= c@.take(next as int));
        }
        end = next;
    }
    end
}

/// Whether a range of characters is the component that leads upwards.
fn is_up(c: &Vec<char>, start: usize, end: usize) -> (r: bool)
    requires
        start <= end <= c@.len(),
    ensures
        r == (c@.subrange(start as int, end as int) == ".."@),
{
    proof {
        reveal_strlit("..");
    }
    let r: bool = end - start == 2 && c[start] == '.' && c[start + 1] == '.';
    proof {
        let part = c@.subrange(start as int, end as int);
        if r {
            assert(part =~= ".."@);
        } else if part == ".."@ {
            assert(part.len() == end - start && ".."@.len() == 2);
            assert(part[0] == c@[start as int]);
            assert(part[1] == c@[start + 1]);
        }
    }
    r
}

/// The last component of a path that counts, unless it leads upwards.
pub fn file_name(path: &str) -> (r: Option<String>)
    ensures
        match r {
            Some(s) => file_name_of(path@) == Some(s@),
            None => file_name_of(path@) is None,
        },
{
    let c: Vec<char> = text::chars_of(path);
    let from: usize = find_body_start(&c);
    assert(c@.take(c@.len() as int) =~= c@);
    let end: usize = find_trimmed_end(&c, from, c.len());
    if end <= from {
        return None;
    }
    let start: usize = find_last_start(&c, from, end);
    proof {
        lemma_last_start(c@.take(end as int), from as nat);
        assert(last_part(c@.take(end as int), from as nat) =~= c@.subrange(
            start as int,
            end as int,
        ));
    }
    if is_up(&c, start, end) {
        return None;
    }
    Some(path.substring_char(start, end).to_owned())
}

/// The path without its last component; none for the root and for the empty
/// path.
pub fn parent(path: &str) -> (r: Option<String>)
    ensures
        match r {
            Some(s) => parent_of(path@) == Some(s@) && s@.len() < path@.len(),
            None => parent_of(path@) is None,
        },
{
    let c: Vec<char> = text::chars_of(path);
    let from: usize = find_body_start(&c);
    assert(c@.take(c@.len() as int) =~= c@);
    let end: usize = find_trimmed_end(&c, from, c.len());
    proof {
        reveal_strlit("");
    }
    if end <= from {
        if from == 1 && c[0] == '.' {
            return Some("".to_owned());
        }
        return None;
    }
    let start: usize = find_last_start(&c, from, end);
    let cut: usize = if start > from {
        start - 1
    } else {
        start
    };
    proof {
        lemma_last_start(c@.take(end as int), from as nat);
        assert(without_last(c@.take(end as int), from as nat) =~= c@.take(cut as int));
    }
    let stop: usize = find_trimmed_end(&c, from, cut);
    assert(path@.subrange(0, stop as int) =~= c@.take(stop as int));
    Some(path.substring_char(0, stop).to_owned())
}

/// A file name without its extension.
pub fn file_stem(name: &str) -> (r: String)
    ensures
        r@ == stem_of(name@),
{
    let c: Vec<char> = text::chars_of(name);
    let mut k: usize = c.len();
    assert(c@.take(k as int) =~= c@);
    while k > 0
        invariant
            k <= c@.len(),
            c@ == name@,
            last_dot(c@) == last_dot(c@.take(k as int)),
        decreases k,
    {
        assert(c@.take(k as int).last() == c@[k - 1]);
        assert(c@.take(k as int).drop_last() =~= c@.take(k - 1));
        if c[k - 1] == '.' {
            if k == 1 {
                return name.to_owned();
            }
            return name.substring_char(0, k - 1).to_owned();
        }
        k = k - 1;
    }
    name.to_owned()
}

/// A component put behind a path.
pub fn join(dir: &str, name: &str) -> (r: String)
    ensures
        r@ == joined(dir@, name@),
{
    let c: Vec<char> = text::chars_of(dir);
    let mut r: String = dir.to_owned();
    if c.len() > 0 && c[c.len() - 1] != '/' {
        r.append("/");
    }
    r.append(name);
    r
}

/// Where the physics file of an avatar lies: next to it, under its own name with
/// `json` in place of the extension. There is none where the path names no file.
pub fn resolve_cc5_json_path(glb_path: &str) -> (r: Option<String>)
    ensures
        match r {
            Some(s) => cc5_path_of(glb_path@) == Some(s@),
            None => cc5_path_of(glb_path@) is None,
        },
{
    let name: String = match file_name(glb_path) {
        Some(n) => n,
        None => return None,
    };
    let dir: String = match parent(glb_path) {
        Some(d) => d,
        None => return None,
    };
    let mut json: String = file_stem(name.as_str());
    json.append(".json");
    Some(join(dir.as_str(), json.as_str()))
}

/// Where the sidecar of an avatar lies: where the caller says, else next to the
/// avatar, under its full name with a suffix.
pub fn resolve_sidecar_path(glb_path: &str, explicit: Option<&str>) -> (r: String)
    ensures
        r@ == match explicit {
            Some(p) => p@,
            None => glb_path@ + ".physics.json"@,
        },
{
    match explicit {
        Some(p) => p.to_owned(),
        None => {
            let mut s: String = glb_path.to_owned();
            s.append(".physics.json");
            s
        },
    }
}

/// A parent is shorter than its child.
pub proof fn law_parents_are_shorter(path: Seq<char>)
    ensures
        parent_of(path) matches Some(dir) ==> dir.len() < path.len(),
{
    let from = body_start(path);
    lemma_trim_end(path, from);
    let body = trim_end(path, from);
    reveal_strlit("");
    if body.len() > from {
        lemma_last_start(body, from);
        lemma_trim_end(without_last(body, from), from);
    }
}

/// Trimming only cuts off the end, and never the start of the path.
proof fn lemma_trim_end(s: Seq<char>, from: nat)
    requires
        from <= s.len(),
    ensures
        from <= trim_end(s, from).len() <= s.len(),
        trim_end(s, from) == s.take(trim_end(s, from).len() as int),
    decreases s.len(),
{
    if s.len() <= from || !is_filler(last_part(s, from)) {
        assert(s.take(s.len() as int) =~= s);
    } else {
        lemma_last_start(s, from);
        let shorter = without_last(s, from);
        lemma_trim_end(shorter, from);
        let n = trim_end(shorter, from).len() as int;
        assert(shorter.take(n) =~= s.take(n));
    }
}

/// A path that names a file also has a parent, so that every named avatar has a
/// place for its physics file.
pub proof fn law_files_have_parents(path: Seq<char>)
    requires
        file_name_of(path) is Some,
    ensures
        parent_of(path) is Some,
        cc5_path_of(path) is Some,
{
}

/// The directories at and above a path, innermost first.
pub open spec fn upwards(path: Seq<char>) -> Seq<Seq<char>>
    decreases path.len(),
    via upwards_shrinks
{
    match parent_of(path) {
        None => seq![path],
        Some(dir) => seq![path] + upwards(dir),
    }
}

#[via_fn]
proof fn upwards_shrinks(path: Seq<char>) {
    law_parents_are_shorter(path);
}

/// Where environment maps may lie below a directory.
pub open spec fn envmaps_below(dir: Seq<char>) -> Seq<char> {
    joined(joined(dir, "avatars"@), "env"@)
}

/// Where environment maps may lie, best first: where the setting says, then
/// below the working directory and each directory above it, and last next to
/// the avatar.
pub open spec fn envmap_places(
    setting: Option<Seq<char>>,
    cwd: Option<Seq<char>>,
    glb_dir: Seq<char>,
) -> Seq<Seq<char>> {
    let first = match setting {
        Some(s) => seq![s],
        None => Seq::empty(),
    };
    let walk = match cwd {
        Some(d) => upwards(d).map_values(|dir: Seq<char>| envmaps_below(dir)),
        None => Seq::empty(),
    };
    first + walk + seq![joined(glb_dir, "env"@)]
}

/// Where environment maps may lie, best first. The first place that exists is to
/// be used, the last one even where it does not.
pub fn envmap_candidates(setting: Option<&str>, cwd: Option<&str>, glb_dir: &str) -> (r: Vec<
    String,
>)
    ensures
        sidecar::strings_view(r@) == envmap_places(
            match setting {
                Some(s) => Some(s@),
                None => None,
            },
            match cwd {
                Some(s) => Some(s@),
                None => None,
            },
            glb_dir@,
        ),
{
    let mut out: Vec<String> = Vec::new();
    if let Some(s) = setting {
        out.push(s.to_owned());
    }
    let ghost first = sidecar::strings_view(out@);
    proof {
        match setting {
            Some(s) => {
                assert(first =~= seq![s@]);
            },
            None => {
                assert(first =~= Seq::empty());
            },
        }
    }
    let ghost below = |dir: Seq<char>| envmaps_below(dir);
    let ghost walk = match cwd {
        Some(d) => upwards(d@).map_values(below),
        None => Seq::empty(),
    };
    if let Some(d) = cwd {
        let mut here: String = d.to_owned();
        let mut more: bool = true;
        assert(first + upwards(here@).map_values(below) =~= first + walk);
        while more
            invariant
                below == (|dir: Seq<char>| envmaps_below(dir)),
                more ==> sidecar::strings_view(out@) + upwards(here@).map_values(below) == first
                    + walk,
                !more ==> sidecar::strings_view(out@) == first + walk,
            decreases here@.len(), more as int,
        {
            let avatars: String = join(here.as_str(), "avatars");
            let place: String = join(avatars.as_str(), "env");
            let ghost before = out@;
            let ghost from = here@;
            out.push(place);
            proof {
                assert(place@ == below(from));
                assert(sidecar::strings_view(out@) =~= sidecar::strings_view(before).push(place@));
            }
            match parent(here.as_str()) {
                Some(dir) => {
                    proof {
                        assert(upwards(from).map_values(below) =~= seq![below(from)] + upwards(
                            dir@,
                        ).map_values(below));
                        assert(sidecar::strings_view(out@) + upwards(dir@).map_values(below)
                            =~= sidecar::strings_view(before) + upwards(from).map_values(below));
                    }
                    here = dir;
                },
                None => {
                    proof {
                        assert(upwards(from).map_values(below) =~= seq![below(from)]);
                        assert(sidecar::strings_view(out@) =~= sidecar::strings_view(before)
                            + upwards(from).map_values(below));
                    }
                    more = false;
                },
            }
        }
    }
    let ghost found = sidecar::strings_view(out@);
    assert(found =~= first + walk);
    let last: String = join(glb_dir, "env");
    out.push(last);
    assert(sidecar::strings_view(out@) =~= found + seq![joined(glb_dir@, "env"@)]);
    out
}

} // verus!
