//! Which paths only an administrator can write to.
use vstd::prelude::*;

use crate::names;
use crate::text;
use crate::wide;
use crate::wide::WideText;

verus! {

/// `c` in lower case, where it is an ASCII letter.
pub open spec fn lowered(c: char) -> char {
    if 'A' <= c <= 'Z' {
        (c as int + 32) as char
    } else {
        c
    }
}

/// `c` as paths are compared: letters in lower case, both slashes alike.
pub open spec fn folded(c: char) -> char {
    if c == '/' {
        '\\'
    } else {
        lowered(c)
    }
}

/// The folded form of a path.
pub open spec fn fold_all(path: Seq<char>) -> Seq<char> {
    path.map_values(|c: char| folded(c))
}

/// The marker that opens an extended-length path.
pub open spec fn extended_prefix() -> Seq<char> {
    seq!['\\', '\\', '?', '\\']
}

/// A path as it is compared: folded, and without the extended-length marker.
pub open spec fn normalized(path: Seq<char>) -> Seq<char> {
    let s = fold_all(path);
    if extended_prefix().is_prefix_of(s) {
        s.skip(4)
    } else {
        s
    }
}

/// `path` without the backslashes at its end.
pub open spec fn trimmed(path: Seq<char>) -> Seq<char>
    decreases path.len(),
{
    if path.len() > 0 && path.last() == '\\' {
        trimmed(path.drop_last())
    } else {
        path
    }
}

/// Whether `binary` sits under `root`: it begins with the root, and the next
/// character ends a path component. An empty root holds nothing.
pub open spec fn under(binary: Seq<char>, root: Seq<char>) -> bool {
    let b = normalized(binary);
    let r = trimmed(normalized(root));
    r.len() > 0 && r.push('\\').is_prefix_of(b)
}

/// Whether `binary` sits under one of `roots`.
pub open spec fn under_any(binary: Seq<u16>, roots: Seq<Seq<u16>>) -> bool {
    exists|i: int|
        0 <= i < roots.len() && under(wide::decode(binary), #[trigger] wide::decode(roots[i]))
}

fn fold(c: char) -> (r: char)
    ensures
        r == folded(c),
{
    if c == '/' {
        '\\'
    } else if 'A' <= c && c <= 'Z' {
        (c as u8 + 32) as char
    } else {
        c
    }
}

/// The text of a path in the form in which paths are compared.
pub fn normalize_for_prefix(path: &WideText) -> (normal: String)
    ensures
        normal@ == normalized(wide::decode(path@)),
{
    let chars = text::chars_of(path.to_string_lossy().as_str());
    let ghost s = fold_all(chars@);
    let n: usize = chars.len();
    let mut start: usize = 0;
    if n >= 4 && fold(chars[0]) == '\\' && fold(chars[1]) == '\\' && fold(chars[2]) == '?' && fold(
        chars[3],
    ) == '\\' {
        start = 4;
    }
    assert(extended_prefix().is_prefix_of(s) <==> start == 4) by {
        if start == 4 {
            assert(extended_prefix() =~= s.take(4));
        }
    }
    let mut normal = String::new();
    let mut i: usize = start;
    while i < n
        invariant
            start <= i <= n == chars@.len(),
            s == fold_all(chars@),
            normal@ == s.subrange(start as int, i as int),
        decreases n - i,
    {
        normal.push(fold(chars[i]));
        i = i + 1;
        assert(normal@ =~= s.subrange(start as int, i as int));
    }
    assert(s.subrange(0, n as int) =~= s);
    if start == 4 {
        assert(s.subrange(4, n as int) =~= s.skip(4));
    }
    normal
}

/// Whether the normalized path `b` sits under the normalized root `r`.
fn holds(r: &[char], b: &[char]) -> (found: bool)
    ensures
        found == (trimmed(r@).len() > 0 && trimmed(r@).push('\\').is_prefix_of(b@)),
{
    let mut n: usize = r.len();
    assert(r@.take(n as int) =~= r@);
    while n > 0 && r[n - 1] == '\\'
        invariant
            n <= r@.len(),
            trimmed(r@.take(n as int)) == trimmed(r@),
        decreases n,
    {
        assert(r@.take(n as int).drop_last() =~= r@.take(n - 1));
        n = n - 1;
    }
    let ghost t = r@.take(n as int);
    assert(trimmed(r@) == t);
    if n == 0 || n >= b.len() || b[n] != '\\' {
        assert(t.push('\\')[n as int] == '\\');
        return false;
    }
    let mut i: usize = 0;
    while i < n
        invariant
            i <= n < b@.len(),
            n <= r@.len(),
            t == r@.take(n as int),
            t == trimmed(r@),
            forall|j: int| 0 <= j < i ==> r@[j] == b@[j],
        decreases n - i,
    {
        if r[i] != b[i] {
            assert(t.push('\\')[i as int] != b@.subrange(0, n + 1)[i as int]);
            return false;
        }
        i = i + 1;
    }
    assert(t.push('\\') =~= b@.subrange(0, n + 1));
    true
}

/// Whether `binary` sits under one of `roots`. Case, the kind of slash, the
/// extended-length marker and backslashes at the end of a root do not matter;
/// a root only counts up to a component boundary.
pub fn is_under_any(binary: &WideText, roots: &[WideText]) -> (found: bool)
    ensures
        found == under_any(binary@, names::contents(roots@)),
{
    let b = text::chars_of(normalize_for_prefix(binary).as_str());
    let n: usize = roots.len();
    let mut i: usize = 0;
    while i < n
        invariant
            i <= n == roots@.len(),
            b@ == normalized(wide::decode(binary@)),
            forall|j: int|
                0 <= j < i ==> !under(
                    wide::decode(binary@),
                    #[trigger] wide::decode(names::contents(roots@)[j]),
                ),
        decreases n - i,
    {
        let r = text::chars_of(normalize_for_prefix(&roots[i]).as_str());
        if holds(r.as_slice(), b.as_slice()) {
            assert(under(wide::decode(binary@), wide::decode(names::contents(roots@)[i as int])));
            return true;
        }
        i = i + 1;
    }
    false
}

/// The environment variables that name the directories which only an
/// administrator can write to.
pub open spec fn root_variables() -> Seq<Seq<char>> {
    seq!["ProgramFiles"@, "ProgramFiles(x86)"@, "SystemRoot"@]
}

/// The contents of a list of strings.
pub open spec fn texts(list: Seq<String>) -> Seq<Seq<char>> {
    list.map_values(|s: String| s@)
}

/// The environment variables that name the directories which only an
/// administrator can write to.
pub fn admin_only_root_variables() -> (variables: Vec<String>)
    ensures
        texts(variables@) == root_variables(),
{
    let mut variables: Vec<String> = Vec::new();
    variables.push("ProgramFiles".to_string());
    variables.push("ProgramFiles(x86)".to_string());
    variables.push("SystemRoot".to_string());
    assert(texts(variables@) =~= root_variables());
    variables
}

/// The contents of a variable, where it is set.
pub open spec fn setting(value: Option<WideText>) -> Option<Seq<u16>> {
    match value {
        Some(w) => Some(w@),
        None => None,
    }
}

/// The contents of a list of variables.
pub open spec fn settings(values: Seq<Option<WideText>>) -> Seq<Option<Seq<u16>>> {
    values.map_values(|v: Option<WideText>| setting(v))
}

/// The values of those variables that are set, in order.
pub open spec fn present(values: Seq<Option<Seq<u16>>>) -> Seq<Seq<u16>>
    decreases values.len(),
{
    if values.len() == 0 {
        seq![]
    } else {
        match values.last() {
            Some(v) => present(values.drop_last()).push(v),
            None => present(values.drop_last()),
        }
    }
}

/// The directories that the given values of the variables name. A variable
/// that is not set names none.
pub fn admin_only_roots(values: &[Option<WideText>]) -> (roots: Vec<WideText>)
    ensures
        names::contents(roots@) == present(settings(values@)),
{
    let mut roots: Vec<WideText> = Vec::new();
    let n: usize = values.len();
    let mut i: usize = 0;
    assert(settings(values@).take(0) =~= seq![]);
    assert(names::contents(roots@) =~= seq![]);
    while i < n
        invariant
            i <= n == values@.len(),
            names::contents(roots@) == present(settings(values@).take(i as int)),
        decreases n - i,
    {
        let ghost next = settings(values@).take(i + 1);
        let ghost before = names::contents(roots@);
        assert(next.drop_last() =~= settings(values@).take(i as int));
        assert(next.last() == setting(values@[i as int]));
        if let Some(w) = &values[i] {
            roots.push(w.copy());
            assert(names::contents(roots@) =~= before.push(w@));
        }
        i = i + 1;
    }
    assert(settings(values@).take(n as int) =~= settings(values@));
    roots
}

/// Whether `path` sits under one of the directories that the given values of
/// the variables name.
pub fn is_admin_only(path: &WideText, values: &[Option<WideText>]) -> (found: bool)
    ensures
        found == under_any(path@, present(settings(values@))),
        found == protected(path@, settings(values@)),
{
    proof {
        law_any_set_variable_protects(path@, settings(values@));
    }
    is_under_any(path, admin_only_roots(values).as_slice())
}

/// The warning about an executable that others may replace.
pub open spec fn binary_warning(binary: Seq<u16>) -> Seq<char> {
    "warning: "@ + wide::decode(binary)
        + " is outside Program Files and the Windows directory, so it may be replaceable by a non-administrator; the service runs as LocalSystem, so that would hand out SYSTEM. Copy the binary somewhere only administrators can write and install from there."@
}

/// Writes that warning.
pub fn write_binary_warning(binary: &WideText) -> (warning: String)
    ensures
        warning@ == binary_warning(binary@),
{
    "warning: ".to_string().concat(binary.to_string_lossy().as_str()).concat(
        " is outside Program Files and the Windows directory, so it may be replaceable by a non-administrator; the service runs as LocalSystem, so that would hand out SYSTEM. Copy the binary somewhere only administrators can write and install from there.",
    )
}

/// The warning about an executable that others may replace, where it is due.
pub fn warn_unless_binary_is_admin_only(
    binary: &WideText,
    values: &[Option<WideText>],
) -> (warning: Option<String>)
    ensures
        warning is None <==> under_any(binary@, present(settings(values@))),
        warning is None <==> protected(binary@, settings(values@)),
        warning matches Some(w) ==> w@ == binary_warning(binary@),
{
    if is_admin_only(binary, values) {
        return None;
    }
    Some(write_binary_warning(binary))
}

/// The warning about a configuration that others may write to.
pub open spec fn config_warning(config: Seq<u16>) -> Seq<char> {
    "warning: "@ + wide::decode(config)
        + " is outside Program Files and the Windows directory, so it may be writable by a non-administrator; the service re-reads it as LocalSystem on every start, so that would let a non-administrator choose what a SYSTEM process exposes. Move the config somewhere only administrators can write and install with --config pointing there."@
}

/// Writes that warning.
pub fn write_config_warning(config: &WideText) -> (warning: String)
    ensures
        warning@ == config_warning(config@),
{
    "warning: ".to_string().concat(config.to_string_lossy().as_str()).concat(
        " is outside Program Files and the Windows directory, so it may be writable by a non-administrator; the service re-reads it as LocalSystem on every start, so that would let a non-administrator choose what a SYSTEM process exposes. Move the config somewhere only administrators can write and install with --config pointing there.",
    )
}

/// The warning about a configuration that others may write to, where it is due.
pub fn warn_unless_config_is_admin_only(
    config: &WideText,
    values: &[Option<WideText>],
) -> (warning: Option<String>)
    ensures
        warning is None <==> under_any(config@, present(settings(values@))),
        warning is None <==> protected(config@, settings(values@)),
        warning matches Some(w) ==> w@ == config_warning(config@),
{
    if is_admin_only(config, values) {
        return None;
    }
    Some(write_config_warning(config))
}

/// Trimming only takes backslashes away from the end.
proof fn lemma_trimmed(s: Seq<char>)
    ensures
        trimmed(s).is_prefix_of(s),
        forall|i: int| trimmed(s).len() <= i < s.len() ==> s[i] == '\\',
        trimmed(s).len() == 0 || trimmed(s).last() != '\\',
        trimmed(s.push('\\')) == trimmed(s),
    decreases s.len(),
{
    assert(s.push('\\').drop_last() =~= s);
    if s.len() > 0 && s.last() == '\\' {
        lemma_trimmed(s.drop_last());
        assert(trimmed(s) =~= s.subrange(0, trimmed(s).len() as int));
        assert forall|i: int| trimmed(s).len() <= i < s.len() implies s[i] == '\\' by {
            if i < s.len() - 1 {
                assert(s.drop_last()[i] == '\\');
            }
        }
    } else {
        assert(s =~= s.subrange(0, s.len() as int));
    }
}

/// Only the folded form of a path matters: neither the case of its letters nor
/// the kind of its slashes, in the executable's path or in the root.
pub proof fn law_case_and_slashes_do_not_matter(
    binary: Seq<char>,
    other_binary: Seq<char>,
    root: Seq<char>,
    other_root: Seq<char>,
)
    requires
        fold_all(binary) == fold_all(other_binary),
        fold_all(root) == fold_all(other_root),
    ensures
        under(binary, root) == under(other_binary, other_root),
{
}

/// Whether the folded form of `path` opens with the extended-length marker.
pub open spec fn is_extended(path: Seq<char>) -> bool {
    extended_prefix().is_prefix_of(fold_all(path))
}

proof fn lemma_extended(path: Seq<char>)
    ensures
        is_extended(path) <==> {
            let s = fold_all(path);
            s.len() >= 4 && s[0] == '\\' && s[1] == '\\' && s[2] == '?' && s[3] == '\\'
        },
{
    let s = fold_all(path);
    let p = extended_prefix();
    if is_extended(path) {
        let t = s.subrange(0, 4);
        assert(p[0] == t[0] && p[1] == t[1] && p[2] == t[2] && p[3] == t[3]);
    } else if s.len() >= 4 && s[0] == '\\' && s[1] == '\\' && s[2] == '?' && s[3] == '\\' {
        assert(p =~= s.subrange(0, 4));
    }
}

/// The extended-length marker does not matter, in the executable's path or in
/// the root.
pub proof fn law_extended_length_marker_does_not_matter(binary: Seq<char>, root: Seq<char>)
    ensures
        !is_extended(binary) ==> under(extended_prefix() + binary, root) == under(binary, root),
        !is_extended(root) ==> under(binary, extended_prefix() + root) == under(binary, root),
{
    lemma_marker_is_dropped(binary);
    lemma_marker_is_dropped(root);
}

proof fn lemma_marker_is_dropped(path: Seq<char>)
    ensures
        !is_extended(path) ==> normalized(extended_prefix() + path) == normalized(path),
{
    let s = fold_all(extended_prefix() + path);
    assert(extended_prefix() =~= s.subrange(0, 4));
    assert(s.skip(4) =~= fold_all(path));
}

/// Appending to a path appends to its normalized form, unless that completes
/// the extended-length marker.
proof fn lemma_normalized_append(path: Seq<char>, more: Seq<char>)
    requires
        is_extended(path + more) ==> is_extended(path),
    ensures
        normalized(path + more) == normalized(path) + fold_all(more),
{
    let s = fold_all(path);
    let t = fold_all(path + more);
    assert(t =~= s + fold_all(more));
    if is_extended(path) {
        assert(t.subrange(0, 4) =~= s.subrange(0, 4));
        assert(t.skip(4) =~= s.skip(4) + fold_all(more));
    }
}

/// Whatever lies below a root, behind a slash of either kind, is under it. The
/// root has to name something, and must not be the bare start of an
/// extended-length marker.
pub proof fn law_what_lies_below_a_root_is_under_it(root: Seq<char>, slash: char, rest: Seq<char>)
    requires
        trimmed(normalized(root)).len() > 0,
        fold_all(root) != seq!['\\', '\\', '?'],
        slash == '\\' || slash == '/',
    ensures
        under(root.push(slash) + rest, root),
{
    let more = seq![slash] + rest;
    let path = root.push(slash) + rest;
    assert(path =~= root + more);
    let s = fold_all(root);
    let t = fold_all(path);
    assert(t =~= s + fold_all(more));
    if is_extended(path) && !is_extended(root) {
        lemma_extended(path);
        if root.len() >= 4 {
            assert(s.subrange(0, 4) =~= extended_prefix());
        } else if root.len() == 3 {
            assert(s =~= seq!['\\', '\\', '?']);
        } else {
            let n = normalized(root);
            assert(n == s);
            lemma_trimmed(n);
            assert forall|i: int| 0 <= i < n.len() implies #[trigger] n[i] == '\\' by {
                assert(n[i] == t[i]);
            }
            assert(trimmed(n).last() == n[trimmed(n).len() - 1]);
        }
    }
    lemma_normalized_append(root, more);
    let r = trimmed(normalized(root));
    lemma_trimmed(normalized(root));
    let b = normalized(path);
    assert(b == normalized(root) + fold_all(more));
    assert(b[r.len() as int] == '\\') by {
        if r.len() == normalized(root).len() {
            assert(fold_all(more)[0] == '\\');
        }
    }
    assert(r.push('\\') =~= b.subrange(0, (r.len() + 1) as int)) by {
        assert forall|i: int| 0 <= i < r.len() implies r[i] == b[i] by {
            assert(r[i] == normalized(root).subrange(0, r.len() as int)[i]);
        }
    }
}

/// A root counts only up to a component boundary: a path that goes on with
/// anything but a slash, such as `C:\Program Files Evil`, is not under a root
/// that ends in no slash, and neither is the root itself.
pub proof fn law_root_ends_at_a_component_boundary(root: Seq<char>, next: char, rest: Seq<char>)
    requires
        trimmed(normalized(root)) == normalized(root),
        next != '\\' && next != '/',
    ensures
        !under(root.push(next) + rest, root),
        !under(root, root),
{
    let more = seq![next] + rest;
    let path = root.push(next) + rest;
    assert(path =~= root + more);
    let r = normalized(root);
    if under(path, root) {
        let s = fold_all(root);
        let t = fold_all(path);
        assert(t =~= s + fold_all(more));
        if is_extended(path) && !is_extended(root) {
            assert(r == s);
            lemma_extended(path);
            if root.len() >= 4 {
                assert(s.subrange(0, 4) =~= extended_prefix());
            } else if root.len() == 3 {
                assert(t[3] == folded(next));
            } else {
                assert(s.last() == t[s.len() - 1] == '\\');
                lemma_trimmed(s);
            }
            assert(false);
        }
        lemma_normalized_append(root, more);
        let b = normalized(path);
        assert(b[r.len() as int] == fold_all(more)[0] == folded(next));
        assert(r.push('\\')[r.len() as int] == b.subrange(0, (r.len() + 1) as int)[r.len() as int]);
    }
}

/// Backslashes at the end of a root do not matter, as long as they do not
/// complete an extended-length marker.
pub proof fn law_trailing_backslash_of_a_root_does_not_matter(binary: Seq<char>, root: Seq<char>)
    requires
        fold_all(root) != seq!['\\', '\\', '?'],
    ensures
        under(binary, root.push('\\')) == under(binary, root),
{
    let more = seq!['\\'];
    assert(root.push('\\') =~= root + more);
    let s = fold_all(root);
    let t = fold_all(root + more);
    assert(t =~= s.push('\\'));
    if is_extended(root + more) && !is_extended(root) {
        lemma_extended(root + more);
        if root.len() >= 4 {
            assert(s.subrange(0, 4) =~= extended_prefix());
        } else {
            assert(s =~= seq!['\\', '\\', '?']);
        }
        assert(false);
    }
    lemma_normalized_append(root, more);
    assert(fold_all(more) =~= seq!['\\']);
    assert(normalized(root + more) =~= normalized(root).push('\\'));
    lemma_trimmed(normalized(root));
}

/// A path is protected by two lists of roots together exactly where one of the
/// two protects it, so a further root never takes a path out of the protected
/// ones; and with no roots none is protected.
pub proof fn law_roots_protect_one_by_one(
    binary: Seq<u16>,
    roots: Seq<Seq<u16>>,
    more: Seq<Seq<u16>>,
)
    ensures
        under_any(binary, roots + more) == (under_any(binary, roots) || under_any(binary, more)),
        !under_any(binary, seq![]),
{
    let path = wide::decode(binary);
    let all = roots + more;
    if under_any(binary, roots) {
        let i = choose|i: int|
            0 <= i < roots.len() && under(path, #[trigger] wide::decode(roots[i]));
        assert(under(path, wide::decode(all[i])));
    }
    if under_any(binary, more) {
        let i = choose|i: int|
            0 <= i < more.len() && under(path, #[trigger] wide::decode(more[i]));
        assert(under(path, wide::decode(all[roots.len() + i])));
    }
    if under_any(binary, all) {
        let i = choose|i: int| 0 <= i < all.len() && under(path, #[trigger] wide::decode(all[i]));
        if i < roots.len() {
            assert(under(path, wide::decode(roots[i])));
        } else {
            assert(under(path, wide::decode(more[i - roots.len()])));
        }
    }
}

/// Folding turns the letters `A` to `Z` into `a` to `z` and a slash into a
/// backslash, and leaves every other character as it is.
pub proof fn law_folding_touches_letters_and_slashes_only(c: char)
    ensures
        'A' <= c <= 'Z' ==> folded(c) as int == c as int + 32,
        c == '/' ==> folded(c) == '\\',
        !('A' <= c <= 'Z') && c != '/' ==> folded(c) == c,
{
}

/// A path is compared character by character in its folded form, from behind
/// the extended-length marker where it opens with one, in either kind of slash.
pub proof fn law_a_path_is_compared_folded_and_without_marker(path: Seq<char>)
    ensures
        ({
            let marked = path.len() >= 4 && (path[0] == '\\' || path[0] == '/') && (path[1] == '\\'
                || path[1] == '/') && path[2] == '?' && (path[3] == '\\' || path[3] == '/');
            let skipped: int = if marked {
                4
            } else {
                0
            };
            &&& normalized(path).len() == path.len() - skipped
            &&& forall|i: int|
                0 <= i < normalized(path).len() ==> #[trigger] normalized(path)[i] == folded(
                    path[i + skipped],
                )
        }),
{
    lemma_extended(path);
    let s = fold_all(path);
    assert(s.len() == path.len());
    if path.len() >= 4 {
        assert(s[0] == folded(path[0]) && s[1] == folded(path[1]) && s[2] == folded(path[2]) && s[3]
            == folded(path[3]));
    }
}

/// How many characters of a normalized root count: all but the backslashes at
/// its end.
pub open spec fn counts_up_to(root: Seq<char>, n: int) -> bool {
    &&& 0 <= n <= root.len()
    &&& n > 0 ==> root[n - 1] != '\\'
    &&& forall|i: int| n <= i < root.len() ==> #[trigger] root[i] == '\\'
}

/// A path is under a root exactly where the root counts for something, the path
/// begins with as much of the root as counts, and goes on with a backslash. How
/// much of a root counts is one number.
pub proof fn law_under_means_below(binary: Seq<char>, root: Seq<char>, n: int, m: int)
    requires
        counts_up_to(normalized(root), n),
        counts_up_to(normalized(root), m),
    ensures
        n == m,
        under(binary, root) <==> {
            &&& 0 < n < normalized(binary).len()
            &&& normalized(binary)[n] == '\\'
            &&& forall|i: int|
                0 <= i < n ==> #[trigger] normalized(binary)[i] == normalized(root)[i]
        },
{
    let b = normalized(binary);
    let r = normalized(root);
    let t = trimmed(r);
    lemma_trimmed(r);
    assert(t =~= r.take(t.len() as int));
    assert(counts_up_to(r, t.len() as int)) by {
        if t.len() > 0 {
            assert(t.last() == r[t.len() - 1]);
        }
    }
    lemma_counts_once(r, n, t.len() as int);
    lemma_counts_once(r, m, t.len() as int);
    let p = t.push('\\');
    if under(binary, root) {
        let c = b.subrange(0, p.len() as int);
        assert(p =~= c);
        assert(p[n] == c[n]);
        assert forall|i: int| 0 <= i < n implies #[trigger] b[i] == r[i] by {
            assert(p[i] == c[i]);
        }
    } else if 0 < n < b.len() && b[n] == '\\' && (forall|i: int|
        0 <= i < n ==> #[trigger] b[i] == r[i]) {
        assert(p =~= b.subrange(0, p.len() as int));
    }
}

proof fn lemma_counts_once(root: Seq<char>, n: int, m: int)
    requires
        counts_up_to(root, n),
        counts_up_to(root, m),
    ensures
        n == m,
{
    if n < m {
        assert(root[m - 1] == '\\');
    } else if m < n {
        assert(root[n - 1] == '\\');
    }
}

/// Every root counts up to somewhere.
pub proof fn law_every_root_counts_up_to_somewhere(root: Seq<char>)
    ensures
        exists|n: int| counts_up_to(root, n),
{
    lemma_trimmed(root);
    let t = trimmed(root);
    if t.len() > 0 {
        assert(t.last() == root.take(t.len() as int)[t.len() - 1]);
    }
    assert(counts_up_to(root, t.len() as int));
}

/// Under one root of a list means under that root.
pub proof fn law_one_root_is_that_root(binary: Seq<u16>, root: Seq<u16>)
    ensures
        under_any(binary, seq![root]) == under(wide::decode(binary), wide::decode(root)),
{
    let roots = seq![root];
    if under(wide::decode(binary), wide::decode(root)) {
        assert(under(wide::decode(binary), wide::decode(roots[0])));
    }
}

/// The directories that count are those that three variables name.
pub proof fn law_three_variables_name_the_roots()
    ensures
        root_variables().len() == 3,
        root_variables()[0] == "ProgramFiles"@,
        root_variables()[1] == "ProgramFiles(x86)"@,
        root_variables()[2] == "SystemRoot"@,
{
}

/// How many of the first `i` variables are set.
pub open spec fn set_before(values: Seq<Option<Seq<u16>>>, i: int) -> int
    decreases i,
{
    if i <= 0 {
        0
    } else if values[i - 1] is Some {
        set_before(values, i - 1) + 1
    } else {
        set_before(values, i - 1)
    }
}

proof fn lemma_set_before(values: Seq<Option<Seq<u16>>>, more: Seq<Option<Seq<u16>>>, i: int, j: int)
    requires
        0 <= i <= j <= values.len(),
    ensures
        0 <= set_before(values, i) <= set_before(values, j) <= j,
        set_before(values + more, i) == set_before(values, i),
        i < j && values[i] is Some ==> set_before(values, i) < set_before(values, j),
    decreases j,
{
    if i < j {
        lemma_set_before(values, more, i, j - 1);
    } else if i > 0 {
        lemma_set_before(values, more, i - 1, j - 1);
    }
}

/// Every variable that is set names a root: the value of variable `i` stands
/// among the roots where the values of those set before it leave off, so the
/// order is kept. There are as many roots as variables that are set, and no
/// root that no variable names.
pub proof fn law_every_set_variable_names_a_root(values: Seq<Option<Seq<u16>>>)
    ensures
        present(values).len() == set_before(values, values.len() as int),
        forall|i: int|
            #![trigger values[i]]
            0 <= i < values.len() && values[i] is Some ==> 0 <= set_before(values, i)
                < present(values).len() && present(values)[set_before(values, i)]
                == values[i]->Some_0,
        forall|k: int|
            0 <= k < present(values).len() ==> exists|i: int|
                0 <= i < values.len() && #[trigger] values[i] == Some(#[trigger] present(values)[k])
                    && set_before(values, i) == k,
    decreases values.len(),
{
    if values.len() > 0 {
        let before = values.drop_last();
        let n = values.len() - 1;
        let old = present(before);
        law_every_set_variable_names_a_root(before);
        assert(before + seq![values.last()] =~= values);
        lemma_set_before(before, seq![values.last()], n, n);
        assert forall|i: int| #![trigger values[i]] 0 <= i < values.len() && values[i] is Some implies 0
            <= set_before(values, i) < present(values).len() && present(values)[set_before(
            values,
            i,
        )] == values[i]->Some_0 by {
            if i < n {
                lemma_set_before(before, seq![values.last()], i, n);
                assert(before[i] == values[i]);
            }
        }
        assert forall|k: int| 0 <= k < present(values).len() implies exists|i: int|
            0 <= i < values.len() && #[trigger] values[i] == Some(#[trigger] present(values)[k])
                && set_before(values, i) == k by {
            if k < old.len() {
                let i = choose|i: int|
                    0 <= i < before.len() && #[trigger] before[i] == Some(old[k]) && set_before(
                        before,
                        i,
                    ) == k;
                lemma_set_before(before, seq![values.last()], i, n);
                assert(values[i] == Some(present(values)[k]));
            } else {
                assert(values[n] == Some(present(values)[k]));
            }
        }
    }
}

/// The roots of two lists of variables are the roots of the first and then
/// those of the second.
pub proof fn law_roots_list_by_list(
    first: Seq<Option<Seq<u16>>>,
    second: Seq<Option<Seq<u16>>>,
    value: Seq<u16>,
)
    ensures
        present(first + second) == present(first) + present(second),
        present(seq![Some(value)]) == seq![value],
        present(seq![None]) == Seq::<Seq<u16>>::empty(),
    decreases second.len(),
{
    let none = Seq::<Option<Seq<u16>>>::empty();
    assert(seq![Some(value)].drop_last() =~= none);
    assert(seq![None::<Seq<u16>>].drop_last() =~= none);
    assert(present(none) =~= seq![]);
    assert(present(seq![Some(value)]) =~= seq![value]);
    if second.len() == 0 {
        assert(first + second =~= first);
        assert(present(first) + present(second) =~= present(first));
    } else {
        law_roots_list_by_list(first, second.drop_last(), value);
        assert((first + second).drop_last() =~= first + second.drop_last());
        assert(present(first + second) =~= present(first) + present(second));
    }
}

/// Whether one of the variables is set to a directory under which `path` sits.
pub open spec fn protected(path: Seq<u16>, values: Seq<Option<Seq<u16>>>) -> bool {
    exists|i: int|
        0 <= i < values.len() && (#[trigger] values[i] matches Some(root) && under(
            wide::decode(path),
            wide::decode(root),
        ))
}

/// A path is under the roots exactly where one of the variables, whichever, is
/// set to a directory under which it sits.
pub proof fn law_any_set_variable_protects(path: Seq<u16>, values: Seq<Option<Seq<u16>>>)
    ensures
        under_any(path, present(values)) == protected(path, values),
{
    let roots = present(values);
    let text = wide::decode(path);
    law_every_set_variable_names_a_root(values);
    if under_any(path, roots) {
        let k = choose|k: int|
            0 <= k < roots.len() && under(text, #[trigger] wide::decode(roots[k]));
        let i = choose|i: int|
            0 <= i < values.len() && #[trigger] values[i] == Some(roots[k]) && set_before(values, i)
                == k;
        assert(values[i] is Some);
    }
    if protected(path, values) {
        let i = choose|i: int|
            0 <= i < values.len() && (#[trigger] values[i] matches Some(root) && under(
                text,
                wide::decode(root),
            ));
        assert(under(text, wide::decode(roots[set_before(values, i)])));
    }
}

/// The warnings name the file, and say why it matters, letter by letter.
pub proof fn law_warnings_are_spelled_out(path: Seq<u16>)
    ensures
        binary_warning(path) == "warning: "@ + wide::decode(path)
            + " is outside Program Files and the Windows directory, so it may be replaceable by a non-administrator; the service runs as LocalSystem, so that would hand out SYSTEM. Copy the binary somewhere only administrators can write and install from there."@,
        config_warning(path) == "warning: "@ + wide::decode(path)
            + " is outside Program Files and the Windows directory, so it may be writable by a non-administrator; the service re-reads it as LocalSystem on every start, so that would let a non-administrator choose what a SYSTEM process exposes. Move the config somewhere only administrators can write and install with --config pointing there."@,
{
}

/// The contents of lists of strings and of variables are those of their
/// elements, one for one.
pub proof fn law_lists_are_seen_one_for_one(list: Seq<String>, values: Seq<Option<WideText>>)
    ensures
        texts(list).len() == list.len(),
        forall|i: int| 0 <= i < list.len() ==> #[trigger] texts(list)[i] == list[i]@,
        settings(values).len() == values.len(),
        forall|i: int|
            0 <= i < values.len() ==> match values[i] {
                Some(value) => #[trigger] settings(values)[i] == Some(value@),
                None => settings(values)[i] is None,
            },
{
}

} // verus!
