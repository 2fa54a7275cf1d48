//! Notification-sound names: stripping known extensions from
//! directory listings, and the sorted, platform-specific catalogue
//! built from them.
//!
//! Reading the sound directories is the caller's business; the file
//! names found there are handed in as plain values.

use vstd::prelude::*;
use vstd::multiset::Multiset;
use vstd::seq_lib::lemma_multiset_commutative;
use crate::errors::Error;
use crate::platform::Platform;
use crate::text::str_eq;

verus! {

/// Lexicographic order on character sequences, by code point.
pub open spec fn lex_le(a: Seq<char>, b: Seq<char>) -> bool
    decreases a.len(),
{
    if a.len() == 0 {
        true
    } else if b.len() == 0 {
        false
    } else if (a[0] as int) < (b[0] as int) {
        true
    } else if (a[0] as int) > (b[0] as int) {
        false
    } else {
        lex_le(a.drop_first(), b.drop_first())
    }
}

/// Strict lexicographic order.
pub open spec fn lex_lt(a: Seq<char>, b: Seq<char>) -> bool {
    lex_le(a, b) && a != b
}

proof fn lemma_lex_le_total(a: Seq<char>, b: Seq<char>)
    ensures
        lex_le(a, b) || lex_le(b, a),
    decreases a.len(),
{
    if a.len() > 0 && b.len() > 0 && a[0] as int == b[0] as int {
        lemma_lex_le_total(a.drop_first(), b.drop_first());
    }
}

proof fn lemma_lex_le_trans(a: Seq<char>, b: Seq<char>, c: Seq<char>)
    requires
        lex_le(a, b),
        lex_le(b, c),
    ensures
        lex_le(a, c),
    decreases a.len(),
{
    if a.len() > 0 && c.len() > 0 && a[0] as int == c[0] as int {
        lemma_lex_le_trans(a.drop_first(), b.drop_first(), c.drop_first());
    }
}

proof fn lemma_char_code_injective(c1: char, c2: char)
    requires
        c1 as int == c2 as int,
    ensures
        c1 == c2,
{
    vstd::utf8::char_u32_cast(c1, c1 as u32);
    vstd::utf8::char_u32_cast(c2, c2 as u32);
}

proof fn lemma_lex_le_antisym(a: Seq<char>, b: Seq<char>)
    requires
        lex_le(a, b),
        lex_le(b, a),
    ensures
        a == b,
    decreases a.len(),
{
    if a.len() == 0 {
        assert(a =~= b);
    } else {
        lemma_char_code_injective(a[0], b[0]);
        lemma_lex_le_antisym(a.drop_first(), b.drop_first());
        assert forall|i: int| 0 <= i < a.len() implies a[i] == b[i] by {
            if i > 0 {
                assert(a[i] == a.drop_first()[i - 1]);
                assert(b[i] == b.drop_first()[i - 1]);
            }
        }
        assert(a =~= b);
    }
}

/// A strictly smaller sequence stays strictly smaller through any
/// larger-or-equal one.
proof fn lemma_lex_lt_le_trans(a: Seq<char>, b: Seq<char>, c: Seq<char>)
    requires
        lex_lt(a, b),
        lex_le(b, c),
    ensures
        lex_lt(a, c),
{
    lemma_lex_le_trans(a, b, c);
    if a == c {
        lemma_lex_le_antisym(a, b);
    }
}

/// Whether `a` sorts at or before `b`, lexicographically by code
/// point.
fn str_le(a: &str, b: &str) -> (r: bool)
    ensures
        r == lex_le(a@, b@),
    decreases a@.len(),
{
    let alen = a.unicode_len();
    let blen = b.unicode_len();
    if alen == 0 {
        true
    } else if blen == 0 {
        false
    } else {
        let ca = a.get_char(0) as u32;
        let cb = b.get_char(0) as u32;
        if ca < cb {
            true
        } else if ca > cb {
            false
        } else {
            let ra = a.substring_char(1, alen);
            let rb = b.substring_char(1, blen);
            proof {
                assert(ra@ =~= a@.drop_first());
                assert(rb@ =~= b@.drop_first());
            }
            str_le(ra, rb)
        }
    }
}

/// `name` with the suffix `ext` removed, when it ends with it.
pub open spec fn spec_strip_suffix(name: Seq<char>, ext: Seq<char>) -> Option<Seq<char>> {
    if name.len() >= ext.len() && name.subrange(
        name.len() - ext.len(),
        name.len() as int,
    ) == ext {
        Some(name.subrange(0, name.len() - ext.len()))
    } else {
        None
    }
}

/// The sound name hidden in a file name: the stem left by the first
/// listed extension that the name ends with, if any.
pub open spec fn spec_extract_sound_name(name: Seq<char>, exts: Seq<Seq<char>>) -> Option<
    Seq<char>,
>
    decreases exts.len(),
{
    if exts.len() == 0 {
        None
    } else {
        match spec_strip_suffix(name, exts[0]) {
            Some(stem) => Some(stem),
            None => spec_extract_sound_name(name, exts.drop_first()),
        }
    }
}

/// The views of a list of extension slices.
pub open spec fn ext_views(exts: Seq<&str>) -> Seq<Seq<char>> {
    exts.map_values(|e: &str| e@)
}

/// Whether `s` ends with `suffix`, character for character.
fn ends_with(s: &str, suffix: &str) -> (r: bool)
    ensures
        r == (s@.len() >= suffix@.len() && s@.subrange(
            s@.len() - suffix@.len(),
            s@.len() as int,
        ) == suffix@),
{
    let slen = s.unicode_len();
    let xlen = suffix.unicode_len();
    if slen < xlen {
        return false;
    }
    let mut k: usize = 0;
    while k < xlen
        invariant
            slen == s@.len(),
            xlen == suffix@.len(),
            xlen <= slen,
            k <= xlen,
            forall|j: int| 0 <= j < k ==> s@[slen - xlen + j] == suffix@[j],
        decreases xlen - k,
    {
        if s.get_char(slen - xlen + k) != suffix.get_char(k) {
            proof {
                assert(s@.subrange(slen - xlen, slen as int)[k as int] != suffix@[k as int]);
            }
            return false;
        }
        k = k + 1;
    }
    proof {
        assert(s@.subrange(slen - xlen, slen as int) =~= suffix@);
    }
    true
}

/// Strips the first matching extension off a file name, yielding the
/// sound name it denotes, or `None` when no listed extension
/// matches.
pub fn extract_sound_name(file_name: &str, extensions: &Vec<&str>) -> (r: Option<String>)
    ensures
        match r {
            Some(stem) => spec_extract_sound_name(file_name@, ext_views(extensions@)) == Some(
                stem@,
            ),
            None => spec_extract_sound_name(file_name@, ext_views(extensions@)) is None,
        },
{
    let ghost full = ext_views(extensions@);
    let n = extensions.len();
    proof {
        assert(full.subrange(0, n as int) =~= full);
    }
    let mut i: usize = 0;
    while i < n
        invariant
            n == extensions@.len(),
            i <= n,
            full == ext_views(extensions@),
            spec_extract_sound_name(file_name@, full) == spec_extract_sound_name(
                file_name@,
                full.subrange(i as int, n as int),
            ),
        decreases n - i,
    {
        let ext = extensions[i];
        if ends_with(file_name, ext) {
            let nl = file_name.unicode_len();
            let el = ext.unicode_len();
            let stem = file_name.substring_char(0, nl - el);
            proof {
                let rest = full.subrange(i as int, n as int);
                assert(rest[0] == ext@);
                assert(spec_strip_suffix(file_name@, ext@) == Some(stem@));
            }
            return Some(String::from_str(stem));
        }
        proof {
            let rest = full.subrange(i as int, n as int);
            assert(rest[0] == ext@);
            assert(spec_strip_suffix(file_name@, ext@) is None);
            assert(rest.drop_first() =~= full.subrange(i + 1, n as int));
        }
        i = i + 1;
    }
    proof {
        assert(full.subrange(n as int, n as int) =~= Seq::<Seq<char>>::empty());
    }
    None
}

/// The views of a list of names.
pub open spec fn name_views(s: Seq<String>) -> Seq<Seq<char>> {
    s.map_values(|x: String| x@)
}

/// Whether the list holds a name with the given characters.
pub open spec fn contains_name(s: Seq<String>, x: Seq<char>) -> bool {
    exists|i: int| 0 <= i < s.len() && s[i]@ == x
}

/// The names sorted, duplicates allowed.
pub open spec fn sorted_names(s: Seq<String>) -> bool {
    forall|i: int, j: int| 0 <= i < j < s.len() ==> lex_le(#[trigger] s[i]@, #[trigger] s[j]@)
}

/// The names strictly sorted: sorted and free of duplicates.
pub open spec fn strictly_sorted_names(s: Seq<String>) -> bool {
    forall|i: int, j: int| 0 <= i < j < s.len() ==> lex_lt(#[trigger] s[i]@, #[trigger] s[j]@)
}

/// The sound names extracted from a directory listing, in listing
/// order.
pub open spec fn spec_extracted(names: Seq<String>, exts: Seq<Seq<char>>) -> Seq<Seq<char>>
    decreases names.len(),
{
    if names.len() == 0 {
        Seq::<Seq<char>>::empty()
    } else {
        let rest = spec_extracted(names.drop_last(), exts);
        match spec_extract_sound_name(names.last()@, exts) {
            Some(stem) => rest.push(stem),
            None => rest,
        }
    }
}

proof fn lemma_insert_multiset<A>(s: Seq<A>, pos: int, x: A)
    requires
        0 <= pos <= s.len(),
    ensures
        s.insert(pos, x).to_multiset() =~= s.to_multiset().insert(x),
{
    broadcast use vstd::multiset::group_multiset_axioms;

    let a = s.subrange(0, pos);
    let b = s.subrange(pos, s.len() as int);
    assert(s =~= a + b);
    assert(s.insert(pos, x) =~= a + (seq![x] + b));
    lemma_multiset_commutative(a, b);
    lemma_multiset_commutative(a, seq![x] + b);
    lemma_multiset_commutative(seq![x], b);
    assert(seq![x] =~= Seq::<A>::empty().push(x));
    Seq::<A>::empty().to_multiset_ensures();
    assert(Seq::<A>::empty().to_multiset() =~= Multiset::<A>::empty());
    assert(seq![x].to_multiset() =~= Multiset::<A>::empty().insert(x));
}

/// Inserts a name into a sorted list, keeping it sorted; the names
/// held afterwards are exactly the old ones plus the new one.
fn insert_sorted(v: &mut Vec<String>, x: String)
    requires
        sorted_names(old(v)@),
    ensures
        sorted_names(final(v)@),
        name_views(final(v)@).to_multiset() == name_views(old(v)@).to_multiset().insert(x@),
        final(v)@.len() == old(v)@.len() + 1,
{
    let ghost xv = x@;
    let mut idx: usize = 0;
    while idx < v.len() && !str_le(x.as_str(), v[idx].as_str())
        invariant
            idx <= v@.len(),
            sorted_names(v@),
            x@ == xv,
            forall|k: int| 0 <= k < idx ==> !lex_le(xv, #[trigger] v@[k]@),
        decreases v@.len() - idx,
    {
        idx = idx + 1;
    }
    let ghost oldv = v@;
    let ghost gidx = idx as int;
    v.insert(idx, x);
    proof {
        assert(v@ == oldv.insert(gidx, x));
        oldv.insert_ensures(gidx, x);
        assert forall|i: int, j: int| 0 <= i < j < v@.len() implies lex_le(v@[i]@, v@[j]@) by {
            if j < gidx {
                assert(v@[i]@ == oldv[i]@ && v@[j]@ == oldv[j]@);
            } else if i < gidx && j == gidx {
                assert(v@[i]@ == oldv[i]@);
                lemma_lex_le_total(xv, oldv[i]@);
            } else if i < gidx && j > gidx {
                assert(v@[i]@ == oldv[i]@ && v@[j]@ == oldv[j - 1]@);
            } else if i == gidx && j > gidx {
                assert(v@[j]@ == oldv[j - 1]@);
                if gidx < j - 1 {
                    lemma_lex_le_trans(xv, oldv[gidx]@, oldv[j - 1]@);
                }
            } else {
                assert(v@[i]@ == oldv[i - 1]@ && v@[j]@ == oldv[j - 1]@);
            }
        }
        assert(name_views(v@) =~= name_views(oldv).insert(gidx, xv));
        lemma_insert_multiset(name_views(oldv), gidx, xv);
    }
}

/// Drops adjacent duplicates from a sorted list: the result is
/// strictly sorted and holds exactly the names the input held.
fn dedup_sorted(v: &Vec<String>) -> (r: Vec<String>)
    requires
        sorted_names(v@),
    ensures
        strictly_sorted_names(r@),
        forall|x: Seq<char>| contains_name(r@, x) <==> contains_name(v@, x),
        v@.len() > 0 ==> r@.len() > 0,
{
    let mut r: Vec<String> = Vec::new();
    let mut i: usize = 0;
    while i < v.len()
        invariant
            i <= v@.len(),
            sorted_names(v@),
            strictly_sorted_names(r@),
            forall|x: Seq<char>|
                contains_name(r@, x) <==> contains_name(v@.subrange(0, i as int), x),
            i > 0 ==> r@.len() > 0 && r@.last()@ == v@[i - 1]@,
            r@.len() > 0 ==> i > 0,
        decreases v@.len() - i,
    {
        let ghost oldr = r@;
        let push_it = if r.len() == 0 {
            true
        } else {
            !str_eq(r[r.len() - 1].as_str(), v[i].as_str())
        };
        if push_it {
            proof {
                if oldr.len() > 0 {
                    assert forall|k: int| 0 <= k < oldr.len() implies lex_lt(
                        oldr[k]@,
                        v@[i as int]@,
                    ) by {
                        let last = oldr[oldr.len() - 1]@;
                        assert(last == v@[i - 1]@);
                        assert(lex_le(v@[i - 1]@, v@[i as int]@));
                        assert(lex_lt(last, v@[i as int]@));
                        if k < oldr.len() - 1 {
                            lemma_lex_lt_le_trans(oldr[k]@, last, v@[i as int]@);
                        }
                    }
                }
            }
            r.push(v[i].clone());
        }
        proof {
            let pre1 = v@.subrange(0, i + 1);
            let pre0 = v@.subrange(0, i as int);
            assert(pre1.drop_last() =~= pre0);
            assert(pre1.last() == v@[i as int]);
            assert forall|x: Seq<char>| contains_name(r@, x) implies contains_name(pre1, x) by {
                let k = choose|k: int| 0 <= k < r@.len() && r@[k]@ == x;
                if k < oldr.len() {
                    assert(oldr[k]@ == x);
                    assert(contains_name(oldr, x));
                    assert(contains_name(pre0, x));
                    let m = choose|m: int| 0 <= m < pre0.len() && pre0[m]@ == x;
                    assert(pre1[m]@ == x);
                } else {
                    assert(r@[k]@ == v@[i as int]@);
                    assert(pre1[i as int]@ == x);
                }
            }
            assert forall|x: Seq<char>| contains_name(pre1, x) implies contains_name(r@, x) by {
                let k = choose|k: int| 0 <= k < pre1.len() && pre1[k]@ == x;
                if k < i {
                    assert(pre0[k]@ == x);
                    assert(contains_name(pre0, x));
                    assert(contains_name(oldr, x));
                    let m = choose|m: int| 0 <= m < oldr.len() && oldr[m]@ == x;
                    assert(r@[m]@ == x);
                } else {
                    assert(v@[i as int]@ == x);
                    if push_it {
                        assert(r@[r@.len() - 1]@ == x);
                    } else {
                        assert(oldr[oldr.len() - 1]@ == v@[i as int]@);
                        assert(r@[r@.len() - 1]@ == x);
                    }
                }
            }
        }
        i = i + 1;
    }
    proof {
        assert(v@.subrange(0, v@.len() as int) =~= v@);
    }
    r
}

proof fn lemma_contains_name_views(s: Seq<String>, x: Seq<char>)
    ensures
        contains_name(s, x) == name_views(s).contains(x),
{
    if contains_name(s, x) {
        let i = choose|i: int| 0 <= i < s.len() && s[i]@ == x;
        assert(name_views(s)[i] == x);
    }
    if name_views(s).contains(x) {
        let i = choose|i: int| 0 <= i < name_views(s).len() && name_views(s)[i] == x;
        assert(s[i]@ == x);
    }
}

/// Builds the sorted list of sound names extracted from a directory
/// listing.
fn collect_sorted(file_names: &Vec<String>, exts: &Vec<&str>) -> (r: Vec<String>)
    ensures
        sorted_names(r@),
        name_views(r@).to_multiset() == spec_extracted(file_names@, ext_views(exts@)).to_multiset(),
{
    let ghost exv = ext_views(exts@);
    let mut out: Vec<String> = Vec::new();
    proof {
        assert(file_names@.subrange(0, 0) =~= Seq::<String>::empty());
        assert(name_views(out@) =~= spec_extracted(file_names@.subrange(0, 0), exv));
    }
    let mut i: usize = 0;
    while i < file_names.len()
        invariant
            i <= file_names@.len(),
            exv == ext_views(exts@),
            sorted_names(out@),
            name_views(out@).to_multiset() == spec_extracted(
                file_names@.subrange(0, i as int),
                exv,
            ).to_multiset(),
        decreases file_names@.len() - i,
    {
        let ghost pre0 = file_names@.subrange(0, i as int);
        let ghost pre1 = file_names@.subrange(0, i + 1);
        proof {
            assert(pre1.drop_last() =~= pre0);
            assert(pre1.last() == file_names@[i as int]);
        }
        match extract_sound_name(file_names[i].as_str(), exts) {
            Some(stem) => {
                proof {
                    assert(spec_extracted(pre1, exv) == spec_extracted(pre0, exv).push(stem@));
                    spec_extracted(pre0, exv).to_multiset_ensures();
                }
                insert_sorted(&mut out, stem);
            },
            None => {
                proof {
                    assert(spec_extracted(pre1, exv) == spec_extracted(pre0, exv));
                }
            },
        }
        i = i + 1;
    }
    proof {
        assert(file_names@.subrange(0, file_names@.len() as int) =~= file_names@);
    }
    out
}

/// The sound-file extensions searched on macOS.
pub open spec fn macos_extensions() -> Seq<Seq<char>> {
    seq![".aiff"@]
}

/// The sound-file extensions searched on Linux.
pub open spec fn linux_extensions() -> Seq<Seq<char>> {
    seq![".oga"@, ".ogg"@, ".wav"@]
}

/// The catalogue of notification sounds hidden in the given
/// directory listing.
///
/// On macOS the names stripped of the `.aiff` extension, sorted; on
/// Linux the names stripped of the `.oga`, `.ogg` or `.wav`
/// extension, sorted with duplicates dropped, and an error when none
/// is found; elsewhere sound selection is unsupported.  Reading the
/// directories themselves is the caller's business.
pub fn get_available_sounds(platform: Platform, file_names: &Vec<String>) -> (r: Result<
    Vec<String>,
    Error,
>)
    ensures
        platform == Platform::Unsupported ==> r == Err::<Vec<String>, Error>(
            Error::UnsupportedPlatform,
        ),
        platform == Platform::MacOs ==> (r matches Ok(v) && sorted_names(v@) && name_views(
            v@,
        ).to_multiset() == spec_extracted(file_names@, macos_extensions()).to_multiset()),
        platform == Platform::Linux ==> ({
            let ex = spec_extracted(file_names@, linux_extensions());
            if ex.len() == 0 {
                r == Err::<Vec<String>, Error>(Error::NoSoundsFound)
            } else {
                r matches Ok(v) && v@.len() > 0 && strictly_sorted_names(v@) && (forall|
                    x: Seq<char>,
                |
                    contains_name(v@, x) <==> ex.contains(x))
            }
        }),
{
    match platform {
        Platform::Unsupported => Err(Error::UnsupportedPlatform),
        Platform::MacOs => {
            let mut exts: Vec<&str> = Vec::new();
            exts.push(".aiff");
            proof {
                assert(ext_views(exts@) =~= macos_extensions());
            }
            Ok(collect_sorted(file_names, &exts))
        },
        Platform::Linux => {
            let mut exts: Vec<&str> = Vec::new();
            exts.push(".oga");
            exts.push(".ogg");
            exts.push(".wav");
            proof {
                assert(ext_views(exts@) =~= linux_extensions());
            }
            let ghost ex = spec_extracted(file_names@, linux_extensions());
            let sorted = collect_sorted(file_names, &exts);
            proof {
                name_views(sorted@).to_multiset_ensures();
                ex.to_multiset_ensures();
            }
            if sorted.len() == 0 {
                proof {
                    assert(name_views(sorted@) =~= Seq::<Seq<char>>::empty());
                    assert(ex.len() == ex.to_multiset().len());
                }
                return Err(Error::NoSoundsFound);
            }
            proof {
                assert(ex.len() == ex.to_multiset().len());
                assert forall|x: Seq<char>| contains_name(sorted@, x) <==> ex.contains(x) by {
                    lemma_contains_name_views(sorted@, x);
                    name_views(sorted@).to_multiset_ensures();
                    ex.to_multiset_ensures();
                    assert(name_views(sorted@).contains(x) <==> name_views(
                        sorted@,
                    ).to_multiset().count(x) > 0);
                    assert(ex.contains(x) <==> ex.to_multiset().count(x) > 0);
                }
            }
            let deduped = dedup_sorted(&sorted);
            Ok(deduped)
        },
    }
}

} // verus!
