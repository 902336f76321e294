//! What holds of paths, told by putting components together.
use crate::paths;
use vstd::prelude::*;

verus! {

/// A text without a separator in it.
pub open spec fn one_component(name: Seq<char>) -> bool {
    forall|i: int| 0 <= i < name.len() ==> #[trigger] name[i] != '/'
}

/// A component that names something: not empty, not a dot, not two dots.
pub open spec fn names_a_file(name: Seq<char>) -> bool {
    &&& one_component(name)
    &&& name.len() > 0
    &&& !(name.len() == 1 && name[0] == '.')
    &&& !(name.len() == 2 && name[0] == '.' && name[1] == '.')
}

/// A directory that does not end in a separator or a dot.
pub open spec fn plain_dir(dir: Seq<char>) -> bool {
    dir.len() > 1 && dir.last() != '/' && dir.last() != '.'
}

/// A component put behind a directory, with a separator between.
pub open spec fn beneath(dir: Seq<char>, name: Seq<char>) -> Seq<char> {
    dir.push('/') + name
}

/// Where the last component starts.
proof fn lemma_last_start(head: Seq<char>, name: Seq<char>, from: nat)
    requires
        one_component(name),
        from <= head.len(),
        head.len() == from || head.last() == '/',
    ensures
        paths::last_start(head + name, from) == head.len(),
    decreases name.len(),
{
    let s = head + name;
    if name.len() == 0 {
        assert(s =~= head);
    } else {
        assert(s.last() == name[name.len() - 1]);
        assert(s.drop_last() =~= head + name.drop_last());
        assert forall|i: int| 0 <= i < name.drop_last().len() implies #[trigger] name.drop_last()[i]
            != '/' by {
            assert(name.drop_last()[i] == name[i]);
        }
        lemma_last_start(head, name.drop_last(), from);
    }
}

proof fn lemma_start_bounds(s: Seq<char>, from: nat)
    requires
        from <= s.len(),
    ensures
        from <= paths::last_start(s, from) <= s.len(),
        s.len() > from && s.last() != '/' ==> paths::last_start(s, from) < s.len(),
    decreases s.len(),
{
    if s.len() > from && s.last() != '/' {
        lemma_start_bounds(s.drop_last(), from);
    }
}

proof fn lemma_dots()
    ensures
        ""@.len() == 0,
        "."@.len() == 1,
        "."@[0] == '.',
        ".."@.len() == 2,
        ".."@[0] == '.',
        ".."@[1] == '.',
        "/"@.len() == 1,
        "/"@[0] == '/',
{
    reveal_strlit("");
    reveal_strlit(".");
    reveal_strlit("..");
    reveal_strlit("/");
}

/// What starts a path beneath a directory.
proof fn lemma_body_start(dir: Seq<char>, name: Seq<char>)
    ensures
        dir.len() == 0 ==> paths::body_start(beneath(dir, name)) == 1,
        dir.len() > 0 ==> paths::body_start(beneath(dir, name)) <= dir.len(),
        dir.len() > 1 ==> paths::body_start(beneath(dir, name)) == paths::body_start(dir),
{
    let path = beneath(dir, name);
    if dir.len() == 0 {
        assert(path[0] == '/');
    } else {
        assert(path[0] == dir[0]);
        assert(path[dir.len() as int] == '/');
        if dir.len() > 1 {
            assert(path[1] == dir[1]);
        }
    }
}

/// The last component of a path is the name that was put behind its directory, and
/// without it a plain directory is left.
pub proof fn law_last_component(dir: Seq<char>, name: Seq<char>)
    requires
        names_a_file(name),
    ensures
        paths::file_name_of(beneath(dir, name)) == Some(name),
        plain_dir(dir) ==> paths::parent_of(beneath(dir, name)) == Some(dir),
{
    lemma_dots();
    let path = beneath(dir, name);
    let from = paths::body_start(path);
    lemma_body_start(dir, name);
    let head = dir.push('/');
    lemma_last_start(head, name, from);
    assert(paths::last_part(path, from) =~= name);
    assert(!paths::is_filler(name)) by {
        if name == "."@ {
            assert(name[0] == '.');
        }
    }
    assert(paths::trim_end(path, from) == path);
    if name == ".."@ {
        assert(name[0] == '.' && name[1] == '.');
    }
    if plain_dir(dir) {
        assert(paths::without_last(path, from) =~= dir);
        if dir.len() > from {
            lemma_start_bounds(dir, from);
            let part = paths::last_part(dir, from);
            assert(part.last() == dir.last());
            if part == "."@ {
                assert(part[0] == '.');
            }
            assert(!paths::is_filler(part));
        }
        assert(paths::trim_end(dir, from) == dir);
    }
}

/// A component that leads upwards names no file, and neither do the root and the empty
/// path; these two have no parent either.
pub proof fn law_paths_without_a_name(dir: Seq<char>)
    ensures
        paths::file_name_of(beneath(dir, ".."@)) is None,
        paths::file_name_of("/"@) is None,
        paths::parent_of("/"@) is None,
        paths::file_name_of(""@) is None,
        paths::parent_of(""@) is None,
        paths::file_name_of("."@) is None,
        paths::parent_of("."@) == Some(""@),
{
    lemma_dots();
    let up = ".."@;
    let path = beneath(dir, up);
    let from = paths::body_start(path);
    lemma_body_start(dir, up);
    let head = dir.push('/');
    assert forall|i: int| 0 <= i < up.len() implies #[trigger] up[i] != '/' by {}
    lemma_last_start(head, up, from);
    assert(paths::last_part(path, from) =~= up);
    assert(!paths::is_filler(up));
    assert(paths::trim_end(path, from) == path);
}

/// A separator at the end of a path does not count.
pub proof fn law_trailing_separator(path: Seq<char>)
    requires
        path.len() > 1,
    ensures
        paths::file_name_of(path.push('/')) == paths::file_name_of(path),
        paths::parent_of(path.push('/')) == paths::parent_of(path),
{
    lemma_dots();
    let longer = path.push('/');
    let from = paths::body_start(path);
    assert(longer[0] == path[0] && longer[1] == path[1]);
    assert(paths::body_start(longer) == from);
    assert(longer.last() == '/');
    assert(paths::last_part(longer, from) =~= ""@);
    assert(paths::without_last(longer, from) =~= path);
    assert(paths::trim_end(longer, from) == paths::trim_end(path, from));
}

/// A name that is put together from a base and an extension, with a dot between, has
/// the base for its stem; a name without a dot, or with its only dot in front, is its
/// own stem.
pub proof fn law_stem_is_the_base(base: Seq<char>, ext: Seq<char>)
    requires
        forall|i: int| 0 <= i < ext.len() ==> #[trigger] ext[i] != '.',
    ensures
        base.len() > 0 ==> paths::stem_of(base.push('.') + ext) == base,
        paths::stem_of(seq!['.'] + ext) == seq!['.'] + ext,
        paths::stem_of(ext) == ext,
{
    lemma_last_dot(base, ext);
    lemma_last_dot(Seq::empty(), ext);
    lemma_no_dot(ext);
    assert(Seq::<char>::empty().push('.') + ext =~= seq!['.'] + ext);
    assert((base.push('.') + ext).subrange(0, base.len() as int) =~= base);
}

proof fn lemma_last_dot(base: Seq<char>, ext: Seq<char>)
    requires
        forall|i: int| 0 <= i < ext.len() ==> #[trigger] ext[i] != '.',
    ensures
        paths::last_dot(base.push('.') + ext) == Some(base.len()),
    decreases ext.len(),
{
    let s = base.push('.') + ext;
    if ext.len() == 0 {
        assert(s =~= base.push('.'));
    } else {
        assert(s.last() == ext[ext.len() - 1]);
        let init = ext.drop_last();
        assert(s.drop_last() =~= base.push('.') + init);
        assert forall|i: int| 0 <= i < init.len() implies #[trigger] init[i] != '.' by {
            assert(init[i] == ext[i]);
        }
        lemma_last_dot(base, init);
    }
}

proof fn lemma_no_dot(s: Seq<char>)
    requires
        forall|i: int| 0 <= i < s.len() ==> #[trigger] s[i] != '.',
    ensures
        paths::last_dot(s) is None,
    decreases s.len(),
{
    if s.len() > 0 {
        let init = s.drop_last();
        assert(s.last() == s[s.len() - 1]);
        assert forall|i: int| 0 <= i < init.len() implies #[trigger] init[i] != '.' by {
            assert(init[i] == s[i]);
        }
        lemma_no_dot(init);
    }
}

/// A component is put behind a directory with exactly one separator between, and
/// behind nothing without one.
pub proof fn law_joined_with_one_separator(dir: Seq<char>, name: Seq<char>)
    ensures
        dir.len() > 0 && dir.last() != '/' ==> paths::joined(dir, name) == beneath(dir, name),
        paths::joined(dir.push('/'), name) == beneath(dir, name),
        paths::joined(Seq::empty(), name) == name,
{
    lemma_dots();
    assert(dir + "/"@ + name =~= beneath(dir, name));
    assert(dir.push('/') + name =~= beneath(dir, name));
    assert(Seq::<char>::empty() + name =~= name);
}

/// The physics file of an avatar lies in its directory and has its name, with `json`
/// in place of the extension.
pub proof fn law_physics_file_lies_beside_the_avatar(
    dir: Seq<char>,
    base: Seq<char>,
    ext: Seq<char>,
)
    requires
        plain_dir(dir),
        base.len() > 0,
        one_component(base),
        one_component(ext),
        ext.len() > 0,
        forall|i: int| 0 <= i < ext.len() ==> #[trigger] ext[i] != '.',
    ensures
        paths::cc5_path_of(beneath(dir, base.push('.') + ext)) == Some(
            beneath(dir, base + ".json"@),
        ),
{
    let name = base.push('.') + ext;
    assert forall|i: int| 0 <= i < name.len() implies #[trigger] name[i] != '/' by {
        if i < base.len() {
            assert(name[i] == base[i]);
        } else if i > base.len() {
            assert(name[i] == ext[i - base.len() - 1]);
        }
    }
    assert(names_a_file(name)) by {
        assert(name[name.len() - 1] == ext[ext.len() - 1]);
    }
    law_last_component(dir, name);
    law_stem_is_the_base(base, ext);
    law_joined_with_one_separator(dir, base + ".json"@);
}

/// The directories upwards of a path start at the path itself and go on with those
/// upwards of its parent, until there is none.
pub proof fn law_upwards_goes_parent_by_parent(path: Seq<char>)
    ensures
        paths::upwards(path).len() >= 1,
        paths::upwards(path)[0] == path,
        paths::parent_of(path) is None ==> paths::upwards(path).len() == 1,
        paths::parent_of(path) matches Some(dir) ==> paths::upwards(path) == seq![path]
            + paths::upwards(dir),
{
    paths::law_parents_are_shorter(path);
}

/// Environment maps are looked for where the setting says, then in `avatars/env` under
/// the working directory and each directory above it, and at last in `env` beside the
/// avatar.
pub proof fn law_where_environment_maps_are_sought(
    setting: Seq<char>,
    cwd: Seq<char>,
    dir: Seq<char>,
    k: int,
)
    requires
        0 <= k < paths::upwards(cwd).len(),
    ensures
        ({
            let all = paths::envmap_places(Some(setting), Some(cwd), dir);
            let n = paths::upwards(cwd).len() as int;
            &&& all.len() == n + 2
            &&& all[0] == setting
            &&& all[1 + k] == paths::joined(
                paths::joined(paths::upwards(cwd)[k], "avatars"@),
                "env"@,
            )
            &&& all[n + 1] == paths::joined(dir, "env"@)
            &&& paths::envmap_places(None, Some(cwd), dir) == all.skip(1)
            &&& paths::envmap_places(Some(setting), None, dir) == seq![setting, paths::joined(
                dir,
                "env"@,
            )]
            &&& paths::envmap_places(None, None, dir) == seq![paths::joined(dir, "env"@)]
        }),
{
    let all = paths::envmap_places(Some(setting), Some(cwd), dir);
    assert(paths::envmap_places(None, Some(cwd), dir) =~= all.skip(1));
    assert(paths::envmap_places(Some(setting), None, dir) =~= seq![setting, paths::joined(
        dir,
        "env"@,
    )]);
    assert(paths::envmap_places(None, None, dir) =~= seq![paths::joined(dir, "env"@)]);
}

} // verus!
