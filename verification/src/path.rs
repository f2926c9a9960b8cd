//! File paths in POSIX syntax, worked on as text.
//!
//! A path is split into components at `/`. Empty components and `.` components do not count,
//! except that a relative path may begin with one `.` component that does.

use vstd::prelude::*;

use crate::text::slice_text;

verus! {

/// Where the components behind a leading `/` or a leading `.` begin.
pub open spec fn body_start(path: Seq<char>) -> int {
    if path.len() > 0 && (path[0] == '/' || (path[0] == '.' && (path.len() == 1 || path[1]
        == '/'))) {
        1
    } else {
        0
    }
}

/// Where the component that ends at `end` begins.
pub open spec fn component_start(path: Seq<char>, start: int, end: int) -> int
    decreases end - start,
{
    if end <= start {
        start
    } else if path[end - 1] == '/' {
        end
    } else {
        component_start(path, start, end - 1)
    }
}

/// The end of what precedes a component that begins at `at`.
pub open spec fn before(start: int, at: int) -> int {
    if at <= start {
        start
    } else {
        at - 1
    }
}

/// Whether the component between two positions does not count.
pub open spec fn counts_for_nothing(path: Seq<char>, from: int, end: int) -> bool {
    end <= from || (end == from + 1 && path[from] == '.')
}

/// The end of the last component that counts, among those that end at or before `end`.
pub open spec fn last_end(path: Seq<char>, start: int, end: int) -> int
    decreases end - start,
{
    if end <= start {
        end
    } else {
        proof {
            lemma_component_start(path, start, end);
        }
        let from = component_start(path, start, end);
        if counts_for_nothing(path, from, end) {
            last_end(path, start, before(start, from))
        } else {
            end
        }
    }
}

/// The path without its last component. An empty path and the root have none to drop.
pub open spec fn parent_of(path: Seq<char>) -> Option<Seq<char>> {
    let start = body_start(path);
    let end = last_end(path, start, path.len() as int);
    if end > start {
        Some(path.take(last_end(path, start, before(start, component_start(path, start, end)))))
    } else if path.len() > 0 && path[0] == '.' {
        Some(Seq::empty())
    } else {
        None
    }
}

/// The last component of a path, unless that is the root, `.` or `..`.
pub open spec fn file_name_of(path: Seq<char>) -> Option<Seq<char>> {
    let start = body_start(path);
    let end = last_end(path, start, path.len() as int);
    if end > start {
        let name = path.subrange(component_start(path, start, end), end);
        if name == seq!['.', '.'] {
            None
        } else {
            Some(name)
        }
    } else {
        None
    }
}

/// What stands behind the last dot of a file name; a dot in the first place does not count.
pub open spec fn extension_of(name: Seq<char>) -> Option<Seq<char>> {
    let dot = last_dot(name, name.len() as int);
    if dot > 0 {
        Some(name.skip(dot + 1))
    } else {
        None
    }
}

/// The position of the last dot among the first `end` characters, or -1.
pub open spec fn last_dot(name: Seq<char>, end: int) -> int
    decreases end,
{
    if end <= 0 {
        -1
    } else if name[end - 1] == '.' {
        end - 1
    } else {
        last_dot(name, end - 1)
    }
}

/// A path with another one attached to it. An absolute path replaces what it is attached to.
pub open spec fn joined(base: Seq<char>, part: Seq<char>) -> Seq<char> {
    if base.len() == 0 || (part.len() > 0 && part[0] == '/') {
        part
    } else if base.last() == '/' {
        base + part
    } else {
        base + "/"@ + part
    }
}

/// A component begins between the start of the path's body and its own end.
pub proof fn lemma_component_start(path: Seq<char>, start: int, end: int)
    requires
        start <= end,
    ensures
        start <= component_start(path, start, end) <= end,
    decreases end - start,
{
    if start < end && path[end - 1] != '/' {
        lemma_component_start(path, start, end - 1);
    }
}

proof fn lemma_last_end(path: Seq<char>, start: int, end: int)
    requires
        start <= end,
    ensures
        start <= last_end(path, start, end) <= end,
    decreases end - start,
{
    if start < end {
        lemma_component_start(path, start, end);
        let from = component_start(path, start, end);
        if counts_for_nothing(path, from, end) {
            lemma_last_end(path, start, before(start, from));
        }
    }
}

fn find_component_start(path: &str, start: usize, end: usize) -> (at: usize)
    requires
        start <= end <= path@.len(),
    ensures
        at == component_start(path@, start as int, end as int),
        start <= at <= end,
{
    let mut i: usize = end;
    while i > start && path.get_char(i - 1) != '/'
        invariant
            start <= i <= end <= path@.len(),
            component_start(path@, start as int, i as int) == component_start(
                path@,
                start as int,
                end as int,
            ),
        decreases i,
    {
        i = i - 1;
    }
    i
}

fn find_last_end(path: &str, start: usize, end: usize) -> (at: usize)
    requires
        start <= end <= path@.len(),
    ensures
        at == last_end(path@, start as int, end as int),
        start <= at <= end,
{
    let mut i: usize = end;
    while i > start
        invariant
            start <= i <= end <= path@.len(),
            last_end(path@, start as int, i as int) == last_end(path@, start as int, end as int),
        decreases i,
    {
        let from: usize = find_component_start(path, start, i);
        if i > from && !(i == from + 1 && path.get_char(from) == '.') {
            return i;
        }
        i = if from == start {
            start
        } else {
            from - 1
        };
    }
    i
}

fn find_body_start(path: &str) -> (start: usize)
    ensures
        start == body_start(path@),
        start <= path@.len(),
{
    let len: usize = path.unicode_len();
    if len == 0 {
        return 0;
    }
    let first = path.get_char(0);
    if first == '/' || (first == '.' && (len == 1 || path.get_char(1) == '/')) {
        1
    } else {
        0
    }
}

/// The path without its last component.
pub fn parent(path: &str) -> (dir: Option<String>)
    ensures
        match dir {
            Some(d) => parent_of(path@) == Some(d@),
            None => parent_of(path@) is None,
        },
{
    let len: usize = path.unicode_len();
    let start: usize = find_body_start(path);
    let end: usize = find_last_end(path, start, len);
    if end > start {
        let from: usize = find_component_start(path, start, end);
        let stop: usize = if from == start {
            start
        } else {
            from - 1
        };
        let keep: usize = find_last_end(path, start, stop);
        let dir = path.substring_char(0, keep).to_owned();
        assert(dir@ =~= path@.take(keep as int));
        Some(dir)
    } else if len > 0 && path.get_char(0) == '.' {
        Some(String::new())
    } else {
        None
    }
}

/// The last component of a path.
pub fn file_name(path: &str) -> (name: Option<String>)
    ensures
        match name {
            Some(n) => file_name_of(path@) == Some(n@),
            None => file_name_of(path@) is None,
        },
{
    let len: usize = path.unicode_len();
    let start: usize = find_body_start(path);
    let end: usize = find_last_end(path, start, len);
    if end > start {
        let from: usize = find_component_start(path, start, end);
        let name = path.substring_char(from, end).to_owned();
        let dots = end - from == 2 && path.get_char(from) == '.' && path.get_char(from + 1) == '.';
        assert(dots <==> name@ =~= seq!['.', '.']);
        if dots {
            None
        } else {
            Some(name)
        }
    } else {
        None
    }
}

/// The extension of a file name.
pub fn extension(name: &str) -> (ext: Option<String>)
    ensures
        match ext {
            Some(e) => extension_of(name@) == Some(e@),
            None => extension_of(name@) is None,
        },
{
    let len: usize = name.unicode_len();
    let mut i: usize = len;
    while i > 0
        invariant
            i <= len,
            len == name@.len(),
            last_dot(name@, i as int) == last_dot(name@, len as int),
        decreases i,
    {
        if name.get_char(i - 1) == '.' {
            if i == 1 {
                return None;
            }
            let ext = name.substring_char(i, len).to_owned();
            assert(ext@ =~= name@.skip(i as int));
            return Some(ext);
        }
        i = i - 1;
    }
    None
}

/// Attaches one path to another.
pub fn join(base: &str, part: &str) -> (path: String)
    ensures
        path@ == joined(base@, part@),
{
    let n: usize = base.unicode_len();
    if n == 0 || (part.unicode_len() > 0 && part.get_char(0) == '/') {
        part.to_owned()
    } else if base.get_char(n - 1) == '/' {
        base.to_owned().concat(part)
    } else {
        base.to_owned().concat("/").concat(part)
    }
}

/// A value that is present and not empty.
pub open spec fn filled(value: Option<Seq<char>>) -> Option<Seq<char>> {
    if value matches Some(text) && text.len() > 0 {
        value
    } else {
        None
    }
}

/// Where the session file is kept when nothing says otherwise: under the state directory of the
/// user, or else under the home directory, or else in the working directory.
pub open spec fn session_path_default(
    state_home: Option<Seq<char>>,
    home: Option<Seq<char>>,
) -> Seq<char> {
    match (filled(state_home), filled(home)) {
        (Some(dir), _) => joined(joined(dir, "matrix-mcp"@), "session.json"@),
        (None, Some(dir)) => joined(
            joined(joined(joined(dir, ".local"@), "state"@), "matrix-mcp"@),
            "session.json"@,
        ),
        (None, None) => "matrix-mcp-session.json"@,
    }
}

/// Default location for the persisted session file, from the values of `XDG_STATE_HOME` and
/// `HOME`.
pub fn default_session_path(state_home: Option<&str>, home: Option<&str>) -> (path: String)
    ensures
        path@ == session_path_default(slice_text(state_home), slice_text(home)),
{
    if let Some(dir) = state_home {
        if !dir.is_empty() {
            return join(&join(dir, "matrix-mcp"), "session.json");
        }
    }
    if let Some(dir) = home {
        if !dir.is_empty() {
            let state = join(&join(dir, ".local"), "state");
            return join(&join(&state, "matrix-mcp"), "session.json");
        }
    }
    "matrix-mcp-session.json".to_owned()
}

/// The directory that the session file stands in; `.` where its path names none.
pub open spec fn session_dir(session_path: Seq<char>) -> Seq<char> {
    match filled(parent_of(session_path)) {
        Some(dir) => dir,
        None => "."@,
    }
}

/// Default location for the crypto and state store: a `store` directory alongside the session
/// file.
pub fn default_store_path(session_path: &str) -> (path: String)
    ensures
        path@ == joined(session_dir(session_path@), "store"@),
{
    if let Some(dir) = parent(session_path) {
        if !dir.as_str().is_empty() {
            return join(&dir, "store");
        }
    }
    join(".", "store")
}

/// Positions behind `end` have no say in where components begin and end.
proof fn lemma_prefix_decides(a: Seq<char>, b: Seq<char>, start: int, end: int)
    requires
        0 <= start <= end,
        end <= a.len(),
        end <= b.len(),
        forall|i: int| 0 <= i < end ==> a[i] == b[i],
    ensures
        component_start(a, start, end) == component_start(b, start, end),
        last_end(a, start, end) == last_end(b, start, end),
    decreases end - start,
{
    if start < end {
        lemma_prefix_decides(a, b, start, end - 1);
        lemma_component_start(a, start, end);
        let from = component_start(a, start, end);
        if counts_for_nothing(a, from, end) {
            lemma_prefix_decides(a, b, start, before(start, from));
        }
    }
}

proof fn lemma_last_end_settles(path: Seq<char>, start: int, end: int)
    requires
        start <= end,
    ensures
        last_end(path, start, last_end(path, start, end)) == last_end(path, start, end),
    decreases end - start,
{
    if start < end {
        lemma_component_start(path, start, end);
        let from = component_start(path, start, end);
        if counts_for_nothing(path, from, end) {
            lemma_last_end_settles(path, start, before(start, from));
        }
    }
}

/// A component without a slash that is attached behind a slash begins right behind that slash.
proof fn lemma_attached_component(path: Seq<char>, start: int, at: int, end: int)
    requires
        0 <= start <= at <= end <= path.len(),
        at == start || path[at - 1] == '/',
        forall|i: int| at <= i < end ==> path[i] != '/',
    ensures
        component_start(path, start, end) == at,
    decreases end - at,
{
    if at < end {
        lemma_attached_component(path, start, at, end - 1);
    }
}

/// The directory of the session file is a non-empty path that ends in a component that counts.
proof fn lemma_session_dir(session_path: Seq<char>)
    ensures
        ({
            let dir = session_dir(session_path);
            &&& dir.len() > 0
            &&& body_start(dir) <= dir.len()
            &&& last_end(dir, body_start(dir), dir.len() as int) == dir.len()
            &&& dir.last() == '/' ==> dir.len() == 1
        }),
{
    reveal_strlit(".");
    let dir = session_dir(session_path);
    if filled(parent_of(session_path)) is Some {
        let start = body_start(session_path);
        let end = last_end(session_path, start, session_path.len() as int);
        lemma_last_end(session_path, start, session_path.len() as int);
        if end > start {
            lemma_component_start(session_path, start, end);
            let stop = before(start, component_start(session_path, start, end));
            lemma_last_end(session_path, start, stop);
            lemma_last_end_settles(session_path, start, stop);
            let keep = last_end(session_path, start, stop);
            assert(dir == session_path.take(keep));
            lemma_prefix_decides(session_path, dir, start, keep);
            assert(body_start(dir) == start) by {
                if start == 0 && keep == 1 && session_path[0] == '.' {
                    assert(component_start(session_path, 0, 0) == 0);
                    assert(component_start(session_path, 0, 1) == 0);
                    assert(last_end(session_path, 0, 0) == 0);
                    assert(last_end(session_path, 0, 1) == 0);
                }
            }
            if keep > start {
                lemma_last_end(session_path, start, keep - 1);
                assert(session_path[keep - 1] != '/');
            }
        }
    }
}

/// The default store is a directory named `store` next to the session file.
pub proof fn law_store_is_beside_session(session_path: Seq<char>)
    ensures
        parent_of(joined(session_dir(session_path), "store"@)) == Some(session_dir(session_path)),
        file_name_of(joined(session_dir(session_path), "store"@)) == Some("store"@),
{
    reveal_strlit("store");
    reveal_strlit("/");
    lemma_session_dir(session_path);
    let dir = session_dir(session_path);
    let start = body_start(dir);
    let path = joined(dir, "store"@);
    let n = path.len() as int;
    let at = n - 5;
    assert(forall|i: int| 0 <= i < dir.len() ==> path[i] == dir[i]);
    assert(path.subrange(at, n) =~= "store"@);
    assert(forall|i: int| at <= i < n ==> path[i] == "store"@[i - at]);
    assert(body_start(path) == start);
    lemma_attached_component(path, start, at, n);
    assert(last_end(path, start, n) == n);
    assert(before(start, at) == dir.len());
    lemma_prefix_decides(path, dir, start, dir.len() as int);
    assert(path.take(dir.len() as int) =~= dir);
    assert("store"@.len() != seq!['.', '.'].len());
}

/// The parent of a path is a proper beginning of it.
pub proof fn law_parent_is_shorter(path: Seq<char>)
    ensures
        parent_of(path) matches Some(dir) ==> dir.len() < path.len() && dir == path.take(
            dir.len() as int,
        ),
{
    let start = body_start(path);
    let end = last_end(path, start, path.len() as int);
    lemma_last_end(path, start, path.len() as int);
    if end > start {
        lemma_component_start(path, start, end);
        let from = component_start(path, start, end);
        lemma_last_end(path, start, before(start, from));
    } else if path.len() > 0 && path[0] == '.' {
        assert(path.take(0) =~= Seq::<char>::empty());
    }
}

/// A component begins at the start of the path's body or right behind a slash.
proof fn lemma_behind_a_slash(path: Seq<char>, start: int, end: int)
    requires
        start <= end,
    ensures
        ({
            let from = component_start(path, start, end);
            from == start || path[from - 1] == '/'
        }),
    decreases end - start,
{
    if start < end && path[end - 1] != '/' {
        lemma_behind_a_slash(path, start, end - 1);
    }
}

/// Whether a text is one component of a path, and one that counts.
pub open spec fn one_component(name: Seq<char>) -> bool {
    &&& name.len() > 0
    &&& forall|i: int| 0 <= i < name.len() ==> #[trigger] name[i] != '/'
    &&& !(name.len() == 1 && name[0] == '.')
}

/// Whether a text is the component that stands for the directory above.
pub open spec fn two_dots(name: Seq<char>) -> bool {
    name.len() == 2 && name[0] == '.' && name[1] == '.'
}

/// The name of a file is what stands behind the last slash of its path, all of it and whatever
/// stands before that slash; without a slash, it is the whole path. Only `..` names no file.
pub proof fn law_file_name_is_the_last_component(dir: Seq<char>, name: Seq<char>)
    requires
        one_component(name),
    ensures
        two_dots(name) ==> file_name_of(name) is None && file_name_of(dir + seq!['/'] + name)
            is None,
        !two_dots(name) ==> file_name_of(name) == Some(name) && file_name_of(
            dir + seq!['/'] + name,
        ) == Some(name),
{
    assert(two_dots(name) <==> name =~= seq!['.', '.']);
    let path = dir + seq!['/'] + name;
    let n = path.len() as int;
    let at = n - name.len();
    assert(forall|i: int| at <= i < n ==> path[i] == name[i - at]);
    assert(path[at - 1] == '/');
    lemma_attached_component(path, body_start(path), at, n);
    assert(last_end(path, body_start(path), n) == n);
    assert(path.subrange(at, n) =~= name);
    assert(body_start(name) == 0);
    lemma_attached_component(name, 0, 0, name.len() as int);
    assert(last_end(name, 0, name.len() as int) == name.len());
    assert(name.subrange(0, name.len() as int) =~= name);
}

/// A slash at the end of a path does not change the name that the path ends in.
pub proof fn law_slash_at_the_end_does_not_matter(path: Seq<char>)
    ensures
        file_name_of(path + seq!['/']) == file_name_of(path),
        parent_of(path + seq!['/']) == parent_of(path) || path.len() == 0,
        file_name_of(Seq::empty()) is None,
        parent_of(Seq::empty()) is None,
{
    let longer = path + seq!['/'];
    let n = path.len() as int;
    let start = body_start(path);
    if path.len() > 0 {
        assert(body_start(longer) == start);
        assert(longer[n] == '/');
        assert(component_start(longer, start, n + 1) == n + 1);
        assert(last_end(longer, start, n + 1) == last_end(longer, start, n));
        lemma_prefix_decides(longer, path, start, n);
        lemma_last_end(path, start, n);
        let end = last_end(path, start, n);
        lemma_prefix_decides(longer, path, start, end);
        if end > start {
            lemma_component_start(path, start, end);
            let from = component_start(path, start, end);
            assert(longer.subrange(from, end) =~= path.subrange(from, end));
            lemma_last_end(path, start, before(start, from));
            lemma_prefix_decides(longer, path, start, before(start, from));
            let keep = last_end(path, start, before(start, from));
            assert(longer.take(keep) =~= path.take(keep));
        }
    } else {
        assert(body_start(longer) == 1);
        assert(last_end(longer, 1, 1) == 1);
        assert(body_start(path) == 0);
        assert(last_end(path, 0, 0) == 0);
        assert(path =~= Seq::empty());
    }
}

/// A path without its last component is what stands before the last slash: the directory that a
/// file is in, all of it, however long it is. A file at the root is in the root, and one that is
/// named alone is in no named directory.
pub proof fn law_parent_is_what_stands_before(dir: Seq<char>, name: Seq<char>)
    requires
        one_component(name),
        dir.len() > 0,
        dir.last() != '/',
        !(dir.len() > 1 && dir.last() == '.' && dir[dir.len() - 2] == '/'),
    ensures
        parent_of(dir + seq!['/'] + name) == Some(dir),
        parent_of(seq!['/'] + name) == Some(seq!['/']),
        parent_of(name) == Some(Seq::<char>::empty()),
{
    let path = dir + seq!['/'] + name;
    let n = path.len() as int;
    let at = n - name.len();
    let start = body_start(path);
    let d = dir.len() as int;
    assert(forall|i: int| at <= i < n ==> path[i] == name[i - at]);
    assert(forall|i: int| 0 <= i < d ==> path[i] == dir[i]);
    assert(path[d] == '/');
    lemma_attached_component(path, start, at, n);
    assert(last_end(path, start, n) == n);
    assert(before(start, at) == d);
    if d > start {
        lemma_component_start(path, start, d);
        lemma_behind_a_slash(path, start, d);
        let from = component_start(path, start, d);
        if from == d {
            assert(path[d - 1] == '/');
        }
        if d == from + 1 && path[from] == '.' {
            if from == 0 {
                assert(start == 1);
            }
            assert(path[from - 1] != '/');
            assert(path[0] == '/' || path[1] == '/');
        }
        assert(last_end(path, start, d) == d);
    }
    assert(path.take(d) =~= dir);
    let rooted = seq!['/'] + name;
    let r = rooted.len() as int;
    assert(forall|i: int| 1 <= i < r ==> rooted[i] == name[i - 1]);
    lemma_attached_component(rooted, 1, 1, r);
    assert(last_end(rooted, 1, r) == r);
    assert(last_end(rooted, 1, 1) == 1);
    assert(rooted.take(1) =~= seq!['/']);
    lemma_attached_component(name, 0, 0, name.len() as int);
    assert(body_start(name) == 0);
    assert(last_end(name, 0, name.len() as int) == name.len());
    assert(last_end(name, 0, 0) == 0);
    assert(name.take(0) =~= Seq::<char>::empty());
}

proof fn lemma_last_dot(name: Seq<char>, dot: int, end: int)
    requires
        0 <= dot < end <= name.len(),
        name[dot] == '.',
        forall|i: int| dot < i < end ==> name[i] != '.',
    ensures
        last_dot(name, end) == dot,
    decreases end - dot,
{
    if dot < end - 1 {
        lemma_last_dot(name, dot, end - 1);
    }
}

proof fn lemma_no_dot(name: Seq<char>, end: int)
    requires
        0 <= end <= name.len(),
        forall|i: int| 0 < i < end ==> name[i] != '.',
    ensures
        last_dot(name, end) <= 0,
    decreases end,
{
    if end > 0 {
        lemma_no_dot(name, end - 1);
    }
}

/// An extension is all that stands behind the last dot of a name, however long it is; a name
/// without a dot behind its first character has none.
pub proof fn law_extension_is_behind_the_last_dot(stem: Seq<char>, ext: Seq<char>, name: Seq<char>)
    ensures
        stem.len() > 0 && (forall|i: int| 0 <= i < ext.len() ==> #[trigger] ext[i] != '.')
            ==> extension_of(stem + seq!['.'] + ext) == Some(ext),
        (forall|i: int| 0 < i < name.len() ==> #[trigger] name[i] != '.') ==> extension_of(
            name,
        ) is None,
{
    if stem.len() > 0 && (forall|i: int| 0 <= i < ext.len() ==> #[trigger] ext[i] != '.') {
        let whole = stem + seq!['.'] + ext;
        let dot = stem.len() as int;
        assert forall|i: int| dot < i < whole.len() implies whole[i] != '.' by {
            assert(whole[i] == ext[i - dot - 1]);
        }
        lemma_last_dot(whole, dot, whole.len() as int);
        assert(whole.skip(dot + 1) =~= ext);
    }
    if forall|i: int| 0 < i < name.len() ==> #[trigger] name[i] != '.' {
        lemma_no_dot(name, name.len() as int);
    }
}

/// A path that is attached to another stands behind it, with exactly one slash between the two
/// where the first does not end in one; an absolute path stands alone.
pub proof fn law_joined_paths_hold_both(base: Seq<char>, part: Seq<char>, whole: Seq<char>)
    requires
        whole == joined(base, part),
    ensures
        base.len() == 0 ==> whole == part,
        part.len() > 0 && part[0] == '/' ==> whole == part,
        base.len() > 0 && (part.len() == 0 || part[0] != '/') ==> {
            &&& whole.take(base.len() as int) == base
            &&& base.last() == '/' ==> whole.skip(base.len() as int) == part
            &&& base.last() != '/' ==> whole[base.len() as int] == '/' && whole.skip(
                base.len() as int + 1,
            ) == part && whole.len() == base.len() + 1 + part.len()
        },
{
    reveal_strlit("/");
    if base.len() > 0 && (part.len() == 0 || part[0] != '/') {
        assert(whole.take(base.len() as int) =~= base);
        if base.last() == '/' {
            assert(whole.skip(base.len() as int) =~= part);
        } else {
            assert(whole.skip(base.len() as int + 1) =~= part);
        }
    }
}

/// Empty components and `.` components do not count, at the end of a path or between a directory
/// and a name.
pub proof fn law_empty_components_do_not_count(path: Seq<char>, base: Seq<char>, name: Seq<char>)
    requires
        one_component(name),
        base.len() > 0,
        path.len() > 0,
    ensures
        file_name_of(path + seq!['/', '.']) == file_name_of(path),
        parent_of(path + seq!['/', '.']) == parent_of(path),
        parent_of(base + seq!['/', '/'] + name) == parent_of(base + seq!['/'] + name),
        parent_of(base + seq!['/', '.', '/'] + name) == parent_of(base + seq!['/'] + name),
        file_name_of(seq!['.']) is None,
{
    let longer = path + seq!['/', '.'];
    let n = path.len() as int;
    let start = body_start(path);
    assert(body_start(longer) == start);
    assert(longer[n] == '/' && longer[n + 1] == '.');
    assert(component_start(longer, start, n + 1) == n + 1);
    assert(component_start(longer, start, n + 2) == n + 1);
    assert(last_end(longer, start, n + 2) == last_end(longer, start, n));
    lemma_prefix_decides(longer, path, start, n);
    lemma_last_end(path, start, n);
    let end = last_end(path, start, n);
    lemma_prefix_decides(longer, path, start, end);
    if end > start {
        lemma_component_start(path, start, end);
        let from = component_start(path, start, end);
        assert(longer.subrange(from, end) =~= path.subrange(from, end));
        lemma_last_end(path, start, before(start, from));
        lemma_prefix_decides(longer, path, start, before(start, from));
        let keep = last_end(path, start, before(start, from));
        assert(longer.take(keep) =~= path.take(keep));
    }
    lemma_between(base, seq!['/'], name);
    lemma_between(base, seq!['/', '/'], name);
    lemma_between(base, seq!['/', '.', '/'], name);
    assert(body_start(seq!['.']) == 1);
    assert(last_end(seq!['.'], 1, 1) == 1);
}

/// A path that consists of a directory, a name and what does not count between them has the parent
/// that the directory alone decides.
proof fn lemma_between(base: Seq<char>, between: Seq<char>, name: Seq<char>)
    requires
        one_component(name),
        base.len() > 0,
        between == seq!['/'] || between == seq!['/', '/'] || between == seq!['/', '.', '/'],
    ensures
        parent_of(base + between + name) == Some(
            base.take(last_end(base, body_start(base), base.len() as int)),
        ),
{
    let path = base + between + name;
    let n = path.len() as int;
    let b = base.len() as int;
    let at = n - name.len();
    let start = body_start(path);
    assert(start == body_start(base));
    assert(forall|i: int| 0 <= i < b ==> path[i] == base[i]);
    assert(forall|i: int| at <= i < n ==> path[i] == name[i - at]);
    assert(forall|i: int| b <= i < at ==> path[i] == between[i - b]);
    assert(path[b] == '/');
    assert(path[at - 1] == '/');
    lemma_attached_component(path, start, at, n);
    assert(last_end(path, start, n) == n);
    assert(before(start, at) == at - 1);
    assert(component_start(path, start, b + 1) == b + 1) by {
        assert(path[b] == '/');
    }
    if between == seq!['/', '/'] {
        assert(last_end(path, start, b + 1) == last_end(path, start, b));
    } else if between == seq!['/', '.', '/'] {
        assert(path[b + 1] == '.');
        assert(component_start(path, start, b + 2) == b + 1);
        assert(last_end(path, start, b + 2) == last_end(path, start, b));
    }
    lemma_prefix_decides(path, base, start, b);
    lemma_last_end(base, start, b);
    let keep = last_end(base, start, b);
    assert(path.take(keep) =~= base.take(keep));
}

} // verus!
