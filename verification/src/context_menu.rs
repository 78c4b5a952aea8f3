//! The Explorer context menu of `.zip` and `.7z` files: the registry keys that hold its verbs
//! and the command each verb runs. Registering them is Windows-only; elsewhere registration is
//! refused and the menu counts as not registered.
use vstd::prelude::*;
use vstd::string::*;

use crate::text::{concat2, concat3, owned, str_eq};

verus! {

/// The root of the per-user class registrations.
pub open spec fn shell_key() -> Seq<char> {
    "Software\\Classes"@
}

/// The extensions whose menu is extended.
pub open spec fn ext_at(i: int) -> Seq<char> {
    if i == 0 {
        ".zip"@
    } else {
        ".7z"@
    }
}

/// The name of the `i`th verb.
pub open spec fn verb_name(i: int) -> Seq<char> {
    if i == 0 {
        "LitePackOpen"@
    } else if i == 1 {
        "LitePackExtractHere"@
    } else if i == 2 {
        "LitePackExtractTo"@
    } else {
        "LitePackExtractNamed"@
    }
}

/// The text the `i`th verb shows.
pub open spec fn verb_display(i: int) -> Seq<char> {
    if i == 0 {
        "用 LitePack 打开(&O)"@
    } else if i == 1 {
        "解压到当前文件夹(&X)"@
    } else if i == 2 {
        "解压到...(&E)..."@
    } else {
        "解压到同名目录(&N)"@
    }
}

/// The command-line flag the `i`th verb passes to the program.
pub open spec fn verb_flag(i: int) -> Seq<char> {
    if i == 0 {
        "--open"@
    } else if i == 1 {
        "--extract-here"@
    } else if i == 2 {
        "--extract-to"@
    } else {
        "--extract-named"@
    }
}

/// The key of a verb under a ProgID (here: the extension itself).
pub open spec fn spec_verb_path(progid: Seq<char>, verb: Seq<char>) -> Seq<char> {
    shell_key() + "\\"@ + progid + "\\shell\\"@ + verb
}

/// The key of a verb under `SystemFileAssociations`, which applies whatever program is the
/// default for the extension.
pub open spec fn spec_sfa_path(ext: Seq<char>, verb: Seq<char>) -> Seq<char> {
    shell_key() + "\\SystemFileAssociations\\"@ + ext + "\\shell\\"@ + verb
}

/// The keys of one verb, before duplicates are dropped: for each extension its
/// `SystemFileAssociations` key, then its own key.
pub open spec fn verb_candidates(verb: Seq<char>) -> Seq<Seq<char>> {
    seq![
        spec_sfa_path(ext_at(0), verb),
        spec_verb_path(ext_at(0), verb),
        spec_sfa_path(ext_at(1), verb),
        spec_verb_path(ext_at(1), verb),
    ]
}

/// The keys of all verbs, before duplicates are dropped.
pub open spec fn all_candidates() -> Seq<Seq<char>> {
    verb_candidates(verb_name(0)) + verb_candidates(verb_name(1)) + verb_candidates(verb_name(2))
        + verb_candidates(verb_name(3))
}

pub open spec fn no_duplicates(s: Seq<Seq<char>>) -> bool {
    forall|i: int, j: int| 0 <= i < j < s.len() ==> s[i] != s[j]
}

pub open spec fn views(v: Seq<String>) -> Seq<Seq<char>> {
    v.map_values(|s: String| s@)
}

/// The key of `verb` for extension `e`: its `SystemFileAssociations` key (`s == 0`) or its own
/// key (`s == 1`).
pub open spec fn key_of(verb: Seq<char>, e: int, s: int) -> Seq<char> {
    if s == 0 {
        spec_sfa_path(ext_at(e), verb)
    } else {
        spec_verb_path(ext_at(e), verb)
    }
}

/// What precedes the verb in a key.
spec fn key_prefix(e: int, s: int) -> Seq<char> {
    if s == 0 {
        shell_key() + "\\SystemFileAssociations\\"@ + ext_at(e) + "\\shell\\"@
    } else {
        shell_key() + "\\"@ + ext_at(e) + "\\shell\\"@
    }
}

/// Where the extension starts in a key of kind `s`.
spec fn ext_start(s: int) -> int {
    if s == 0 {
        40
    } else {
        17
    }
}

proof fn lemma_key_shape(verb: Seq<char>, e: int, s: int)
    requires
        0 <= e < 2,
        0 <= s < 2,
    ensures
        key_of(verb, e, s) == key_prefix(e, s) + verb,
        key_prefix(e, s).len() > ext_start(s) + 1,
        key_prefix(e, s)[17] == if s == 0 {
            'S'
        } else {
            '.'
        },
        key_prefix(e, s)[ext_start(s) + 1] == if e == 0 {
            'z'
        } else {
            '7'
        },
{
    reveal_strlit("Software\\Classes");
    reveal_strlit("\\");
    reveal_strlit("\\SystemFileAssociations\\");
    reveal_strlit("\\shell\\");
    reveal_strlit(".zip");
    reveal_strlit(".7z");
    let x = ext_at(e);
    let pre = if s == 0 {
        shell_key() + "\\SystemFileAssociations\\"@
    } else {
        shell_key() + "\\"@
    };
    assert(pre.len() == ext_start(s));
    assert(key_prefix(e, s) =~= pre + x + "\\shell\\"@);
    assert(key_of(verb, e, s) =~= key_prefix(e, s) + verb);
    assert(key_prefix(e, s)[ext_start(s) + 1] == x[1]);
    if s == 1 {
        assert(key_prefix(e, s)[17] == x[0]);
    }
}

/// The verbs have different names.
proof fn lemma_verb_names_differ(j1: int, j2: int)
    requires
        0 <= j1 < 4,
        0 <= j2 < 4,
        j1 != j2,
    ensures
        verb_name(j1) != verb_name(j2),
{
    reveal_strlit("LitePackOpen");
    reveal_strlit("LitePackExtractHere");
    reveal_strlit("LitePackExtractTo");
    reveal_strlit("LitePackExtractNamed");
    let a = verb_name(j1);
    let b = verb_name(j2);
    if j1 == 0 || j2 == 0 {
        assert(a[8] != b[8]);
    } else {
        assert(a[15] != b[15]);
    }
}

/// Keys of different extensions, kinds or verbs differ.
proof fn lemma_keys_differ(v1: Seq<char>, e1: int, s1: int, v2: Seq<char>, e2: int, s2: int)
    requires
        0 <= e1 < 2,
        0 <= s1 < 2,
        0 <= e2 < 2,
        0 <= s2 < 2,
        v1 != v2 || e1 != e2 || s1 != s2,
    ensures
        key_of(v1, e1, s1) != key_of(v2, e2, s2),
{
    lemma_key_shape(v1, e1, s1);
    lemma_key_shape(v2, e2, s2);
    let a = key_of(v1, e1, s1);
    let b = key_of(v2, e2, s2);
    let p = key_prefix(e1, s1);
    if s1 != s2 {
        assert(a[17] != b[17]);
    } else if e1 != e2 {
        assert(a[ext_start(s1) + 1] != b[ext_start(s1) + 1]);
    } else if a == b {
        assert(v1 =~= a.subrange(p.len() as int, a.len() as int));
        assert(v2 =~= b.subrange(p.len() as int, b.len() as int));
    }
}

/// The candidates of one verb are its keys in order: per extension, the
/// `SystemFileAssociations` key then the own key; no two are alike.
proof fn lemma_verb_candidates(verb: Seq<char>)
    ensures
        verb_candidates(verb).len() == 4,
        forall|n: int| 0 <= n < 4 ==> #[trigger] verb_candidates(verb)[n] == key_of(verb, n / 2, n % 2),
        no_duplicates(verb_candidates(verb)),
{
    assert forall|m: int, n: int| 0 <= m < n < 4 implies verb_candidates(verb)[m]
        != verb_candidates(verb)[n] by {
        lemma_keys_differ(verb, m / 2, m % 2, verb, n / 2, n % 2);
    }
}

/// The candidates of all verbs: verb by verb, extension by extension; no two are alike.
proof fn lemma_all_candidates()
    ensures
        all_candidates().len() == 16,
        forall|n: int| 0 <= n < 16 ==> #[trigger] all_candidates()[n] == key_of(verb_name(n / 4), (n % 4) / 2, n % 2),
        no_duplicates(all_candidates()),
{
    let a = verb_candidates(verb_name(0));
    let b = verb_candidates(verb_name(1));
    let c = verb_candidates(verb_name(2));
    let d = verb_candidates(verb_name(3));
    assert(all_candidates() =~= a + b + c + d);
    assert forall|n: int| 0 <= n < 16 implies #[trigger] all_candidates()[n] == key_of(verb_name(n / 4), (n % 4) / 2, n % 2) by {
        if n < 4 {
            assert(all_candidates()[n] == a[n]);
        } else if n < 8 {
            assert(all_candidates()[n] == b[n - 4]);
        } else if n < 12 {
            assert(all_candidates()[n] == c[n - 8]);
        } else {
            assert(all_candidates()[n] == d[n - 12]);
        }
    }
    assert forall|m: int, n: int| 0 <= m < n < 16 implies all_candidates()[m] != all_candidates()[n] by {
        if m / 4 != n / 4 {
            lemma_verb_names_differ(m / 4, n / 4);
        }
        lemma_keys_differ(verb_name(m / 4), (m % 4) / 2, m % 2, verb_name(n / 4), (n % 4) / 2, n % 2);
    }
}

fn ext_text(i: usize) -> (r: &'static str)
    requires
        i < 2,
    ensures
        r@ == ext_at(i as int),
{
    if i == 0 {
        ".zip"
    } else {
        ".7z"
    }
}

fn verb_text(i: usize) -> (r: (&'static str, &'static str, &'static str))
    requires
        i < 4,
    ensures
        r.0@ == verb_name(i as int),
        r.1@ == verb_display(i as int),
        r.2@ == verb_flag(i as int),
{
    if i == 0 {
        ("LitePackOpen", "用 LitePack 打开(&O)", "--open")
    } else if i == 1 {
        ("LitePackExtractHere", "解压到当前文件夹(&X)", "--extract-here")
    } else if i == 2 {
        ("LitePackExtractTo", "解压到...(&E)...", "--extract-to")
    } else {
        ("LitePackExtractNamed", "解压到同名目录(&N)", "--extract-named")
    }
}

/// The key of `verb` under the ProgID `progid`.
pub fn verb_path(progid: &str, verb_name: &str) -> (r: String)
    ensures
        r@ == spec_verb_path(progid@, verb_name@),
{
    let mut r = concat3("Software\\Classes", "\\", progid);
    r.append("\\shell\\");
    r.append(verb_name);
    r
}

/// The `SystemFileAssociations` key of `verb` for the extension `ext`.
pub fn sfa_path(ext: &str, verb_name: &str) -> (r: String)
    ensures
        r@ == spec_sfa_path(ext@, verb_name@),
{
    let mut r = concat3("Software\\Classes", "\\SystemFileAssociations\\", ext);
    r.append("\\shell\\");
    r.append(verb_name);
    r
}

/// Whether the key `p` is among `v`.
fn contains_text(v: &Vec<String>, p: &str) -> (r: bool)
    ensures
        r == views(v@).contains(p@),
{
    let mut i: usize = 0;
    while i < v.len()
        invariant
            i <= v@.len(),
            forall|j: int| 0 <= j < i ==> v@[j]@ != p@,
        decreases v.len() - i,
    {
        if str_eq(v[i].as_str(), p) {
            assert(views(v@)[i as int] == p@);
            return true;
        }
        i = i + 1;
    }
    assert forall|j: int| 0 <= j < views(v@).len() implies views(v@)[j] != p@ by {
        assert(views(v@)[j] == v@[j]@);
    }
    false
}

/// Adds `p` to `v` unless it is there already.
fn push_new(v: &mut Vec<String>, p: String)
    ensures
        views(old(v)@).contains(p@) ==> views(final(v)@) == views(old(v)@),
        !views(old(v)@).contains(p@) ==> views(final(v)@) == views(old(v)@).push(p@),
{
    let ghost before = views(v@);
    if !contains_text(v, p.as_str()) {
        let ghost pv = p@;
        v.push(p);
        assert(views(v@) =~= before.push(pv));
    }
}

/// `x` occurs in neither `a` nor `b`, so not in `a + b`.
proof fn lemma_not_in_concat(a: Seq<Seq<char>>, b: Seq<Seq<char>>, x: Seq<char>)
    requires
        !a.contains(x),
        !b.contains(x),
    ensures
        !(a + b).contains(x),
{
    if (a + b).contains(x) {
        let j = choose|j: int| 0 <= j < (a + b).len() && (a + b)[j] == x;
        if j < a.len() {
            assert(a[j] == x);
        } else {
            assert(b[j - a.len()] == x);
        }
    }
}

/// In a sequence without duplicates, an element does not occur before its place.
proof fn lemma_not_before(s: Seq<Seq<char>>, m: int)
    requires
        no_duplicates(s),
        0 <= m < s.len(),
    ensures
        !s.subrange(0, m).contains(s[m]),
{
    if s.subrange(0, m).contains(s[m]) {
        let j = choose|j: int| 0 <= j < m && s.subrange(0, m)[j] == s[m];
        assert(s[j] == s[m]);
    }
}

/// Adds the keys of `verb` to `v`, dropping those already there; when none is there, they are
/// appended in order.
fn push_verb_paths(v: &mut Vec<String>, verb: &str)
    ensures
        (forall|k: Seq<char>| #[trigger] verb_candidates(verb@).contains(k) ==> !views(old(v)@).contains(k))
            ==> views(final(v)@) == views(old(v)@) + verb_candidates(verb@),
{
    let ghost start = views(v@);
    let ghost cands = verb_candidates(verb@);
    let ghost fresh = forall|k: Seq<char>| #[trigger] cands.contains(k) ==> !start.contains(k);
    proof {
        lemma_verb_candidates(verb@);
    }
    let mut e: usize = 0;
    while e < 2
        invariant
            e <= 2,
            cands == verb_candidates(verb@),
            cands.len() == 4,
            no_duplicates(cands),
            fresh == (forall|k: Seq<char>| #[trigger] cands.contains(k) ==> !start.contains(k)),
            fresh ==> views(v@) == start + cands.subrange(0, 2 * e as int),
        decreases 2 - e,
    {
        let ext = ext_text(e);
        proof {
            if fresh {
                assert(cands.contains(cands[2 * e as int]));
                lemma_not_before(cands, 2 * e as int);
                lemma_not_in_concat(start, cands.subrange(0, 2 * e as int), cands[2 * e as int]);
            }
        }
        push_new(v, sfa_path(ext, verb));
        proof {
            if fresh {
                assert(cands.subrange(0, 2 * e + 1) =~= cands.subrange(0, 2 * e as int).push(
                    cands[2 * e as int],
                ));
                assert(views(v@) =~= start + cands.subrange(0, 2 * e + 1));
                assert(cands.contains(cands[2 * e + 1]));
                lemma_not_before(cands, 2 * e + 1);
                lemma_not_in_concat(start, cands.subrange(0, 2 * e + 1), cands[2 * e + 1]);
            }
        }
        push_new(v, verb_path(ext, verb));
        proof {
            if fresh {
                assert(cands.subrange(0, 2 * e + 2) =~= cands.subrange(0, 2 * e + 1).push(
                    cands[2 * e + 1],
                ));
                assert(views(v@) =~= start + cands.subrange(0, 2 * e + 2));
            }
        }
        e = e + 1;
    }
    assert(cands.subrange(0, 4) =~= cands);
}

/// The keys of one verb: for `.zip` then `.7z`, its `SystemFileAssociations` key then its own
/// key; no two are alike.
pub fn verb_target_paths(verb_name: &str) -> (r: Vec<String>)
    ensures
        views(r@) == verb_candidates(verb_name@),
        no_duplicates(views(r@)),
{
    let mut paths: Vec<String> = Vec::new();
    assert(views(paths@) =~= Seq::<Seq<char>>::empty());
    push_verb_paths(&mut paths, verb_name);
    assert(views(paths@) =~= verb_candidates(verb_name@));
    proof {
        lemma_verb_candidates(verb_name@);
    }
    paths
}

/// Every key that registration writes, verb by verb in the order of the verbs, each verb's
/// keys as [`verb_target_paths`] gives them; no two are alike.
pub fn all_target_paths() -> (r: Vec<String>)
    ensures
        views(r@) == all_candidates(),
        no_duplicates(views(r@)),
{
    let mut paths: Vec<String> = Vec::new();
    proof {
        lemma_all_candidates();
    }
    let ghost all = all_candidates();
    assert(views(paths@) =~= all.take(0));
    let mut i: usize = 0;
    while i < 4
        invariant
            i <= 4,
            all == all_candidates(),
            all.len() == 16,
            no_duplicates(all),
            forall|n: int| 0 <= n < 16 ==> #[trigger] all[n] == key_of(verb_name(n / 4), (n % 4) / 2, n % 2),
            views(paths@) == all.take(4 * i as int),
        decreases 4 - i,
    {
        let (name, _, _) = verb_text(i);
        let ghost vc = verb_candidates(name@);
        proof {
            lemma_verb_candidates(name@);
            assert forall|n: int| 0 <= n < 4 implies vc[n] == all[4 * i + n] by {
                assert((4 * i + n) / 4 == i);
                assert(((4 * i + n) % 4) / 2 == n / 2);
                assert((4 * i + n) % 2 == n % 2);
            }
            assert forall|k: Seq<char>| #[trigger] vc.contains(k) implies !all.take(4 * i as int).contains(k) by {
                let n = choose|n: int| 0 <= n < 4 && vc[n] == k;
                let pre = all.take(4 * i as int);
                if pre.contains(k) {
                    let m = choose|m: int| 0 <= m < pre.len() && pre[m] == k;
                    assert(all[m] == all[4 * i + n]);
                }
            }
        }
        push_verb_paths(&mut paths, name);
        proof {
            assert(all.take(4 * i + 4) =~= all.take(4 * i as int) + vc);
        }
        i = i + 1;
    }
    assert(all.take(16) =~= all);
    paths
}

/// The command a verb runs: the program, quoted, then its flag and the clicked file, quoted.
pub fn command_line(exe: &str, flag: &str) -> (r: String)
    ensures
        r@ == "\""@ + exe@ + "\" "@ + flag@ + " \"%1\""@,
{
    let mut r = concat3("\"", exe, "\" ");
    r.append(flag);
    r.append(" \"%1\"");
    r
}

/// Registers the context menu; this build does not run on Windows, where the registry is, so
/// registration is refused.
pub fn register() -> (r: Result<(), String>)
    ensures
        r matches Err(m) && m@ == "当前平台不支持右键菜单注册"@,
{
    Err(owned("当前平台不支持右键菜单注册"))
}

/// Removes the context menu; without a registry there is nothing to remove.
pub fn unregister() -> (r: Result<(), String>)
    ensures
        r is Ok,
{
    Ok(())
}

/// Whether the context menu is registered; never without a registry.
pub fn is_registered() -> (r: bool)
    ensures
        !r,
{
    false
}

} // verus!
