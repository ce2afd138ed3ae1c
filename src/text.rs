//! Character-level helpers on strings: substring search, defanging,
//! joining of tag lists and decimal rendering of integers.

use vstd::prelude::*;
use vstd::string::*;

verus! {

/// True when `p` occurs in `s` as a contiguous run of characters.
pub open spec fn has_substring(s: Seq<char>, p: Seq<char>) -> bool {
    exists|i: int| 0 <= i <= s.len() - p.len() && #[trigger] s.subrange(i, i + p.len()) == p
}

/// Does `p` occur in `s` starting at position `i`?
pub open spec fn occurs_at(s: Seq<char>, p: Seq<char>, i: int) -> bool {
    0 <= i <= s.len() - p.len() && s.subrange(i, i + p.len()) == p
}

/// The characters of a string, one by one.
pub fn chars_of(s: &str) -> (r: Vec<char>)
    ensures
        r@ == s@,
{
    let n = s.unicode_len();
    let mut r: Vec<char> = Vec::new();
    let mut i: usize = 0;
    while i < n
        invariant
            n == s@.len(),
            i <= n,
            r@ == s@.subrange(0, i as int),
        decreases n - i,
    {
        r.push(s.get_char(i));
        i = i + 1;
        assert(r@ =~= s@.subrange(0, i as int));
    }
    assert(r@ =~= s@);
    r
}

fn matches_at(s: &Vec<char>, p: &Vec<char>, i: usize) -> (r: bool)
    requires
        i + p@.len() <= s@.len(),
    ensures
        r == (s@.subrange(i as int, i + p@.len()) == p@),
{
    let sl = s.len();
    let mut j: usize = 0;
    while j < p.len()
        invariant
            i + p@.len() <= s@.len(),
            sl == s@.len(),
            j <= p@.len(),
            s@.subrange(i as int, i + j) == p@.subrange(0, j as int),
        decreases p@.len() - j,
    {
        if s[i + j] != p[j] {
            assert(s@.subrange(i as int, i + p@.len())[j as int] != p@[j as int]);
            return false;
        }
        j = j + 1;
        assert(s@.subrange(i as int, i + j) =~= p@.subrange(0, j as int));
    }
    assert(p@.subrange(0, j as int) =~= p@);
    true
}

/// Substring test: `true` exactly when `pat` occurs in `s`. The empty
/// pattern occurs in every string.
pub fn contains_text(s: &str, pat: &str) -> (r: bool)
    ensures
        r == has_substring(s@, pat@),
{
    let sv = chars_of(s);
    let pv = chars_of(pat);
    if pv.len() > sv.len() {
        return false;
    }
    let last = sv.len() - pv.len();
    let mut i: usize = 0;
    while i < last
        invariant
            sv@ == s@,
            pv@ == pat@,
            last == s@.len() - pat@.len(),
            i <= last,
            forall|k: int| 0 <= k < i ==> #[trigger] s@.subrange(k, k + pat@.len()) != pat@,
        decreases last - i,
    {
        if matches_at(&sv, &pv, i) {
            assert(s@.subrange(i as int, i + pat@.len()) == pat@);
            return true;
        }
        i = i + 1;
    }
    let found = matches_at(&sv, &pv, last);
    if found {
        assert(s@.subrange(last as int, last + pat@.len()) == pat@);
    }
    found
}

/// The four characters `http`.
pub open spec fn http_chars() -> Seq<char> {
    seq!['h', 't', 't', 'p']
}

/// The four characters `hxxp`.
pub open spec fn hxxp_chars() -> Seq<char> {
    seq!['h', 'x', 'x', 'p']
}

/// Defanged text: every occurrence of `http`, scanning from the left, becomes
/// `hxxp`; all other characters are kept.
pub open spec fn defanged(s: Seq<char>) -> Seq<char>
    decreases s.len(),
{
    if s.len() == 0 {
        s
    } else if s.len() >= 4 && s.subrange(0, 4) == http_chars() {
        hxxp_chars() + defanged(s.subrange(4, s.len() as int))
    } else {
        seq![s[0]] + defanged(s.subrange(1, s.len() as int))
    }
}

/// Defanging keeps the length.
pub proof fn defanged_len(s: Seq<char>)
    ensures
        defanged(s).len() == s.len(),
    decreases s.len(),
{
    if s.len() == 0 {
    } else if s.len() >= 4 && s.subrange(0, 4) == http_chars() {
        defanged_len(s.subrange(4, s.len() as int));
    } else {
        defanged_len(s.subrange(1, s.len() as int));
    }
}

/// Defanging keeps the first character.
pub proof fn defanged_first(s: Seq<char>)
    requires
        s.len() > 0,
    ensures
        defanged(s)[0] == s[0],
{
    if s.len() >= 4 && s.subrange(0, 4) == http_chars() {
        assert(s.subrange(0, 4)[0] == s[0]);
    }
}

/// Defanged text holds no `http` anywhere: every occurrence was replaced and
/// no new one can form across a replacement.
pub proof fn defanged_has_no_http(s: Seq<char>)
    ensures
        !has_substring(defanged(s), http_chars()),
    decreases s.len(),
{
    let d = defanged(s);
    let h = http_chars();
    if s.len() == 0 {
        return;
    }
    if s.len() >= 4 && s.subrange(0, 4) == h {
        let rest = s.subrange(4, s.len() as int);
        defanged_has_no_http(rest);
        let dr = defanged(rest);
        assert(d == hxxp_chars() + dr);
        assert forall|i: int| 0 <= i <= d.len() - 4 implies #[trigger] d.subrange(i, i + 4) != h by {
            if i >= 4 {
                assert(d.subrange(i, i + 4) =~= dr.subrange(i - 4, i - 4 + 4));
            } else if i == 0 {
                assert(d.subrange(i, i + 4)[1] == 'x');
            } else {
                assert(d.subrange(i, i + 4)[0] != 'h');
            }
        }
    } else {
        let rest = s.subrange(1, s.len() as int);
        defanged_has_no_http(rest);
        defanged_len(rest);
        let dr = defanged(rest);
        assert(d == seq![s[0]] + dr);
        assert forall|i: int| 0 <= i <= d.len() - 4 implies #[trigger] d.subrange(i, i + 4) != h by {
            if i >= 1 {
                assert(d.subrange(i, i + 4) =~= dr.subrange(i - 1, i - 1 + 4));
            } else if d.subrange(0, 4) == h {
                assert(d.subrange(0, 4)[0] == s[0]);
                assert(d.subrange(0, 4)[1] == dr[0]);
                defanged_first(rest);
                assert(rest[0] == 't');
                let r2 = rest.subrange(1, rest.len() as int);
                if rest.len() >= 4 && rest.subrange(0, 4) == h {
                    assert(rest.subrange(0, 4)[0] == rest[0]);
                }
                assert(dr == seq![rest[0]] + defanged(r2));
                defanged_len(r2);
                defanged_first(r2);
                assert(d.subrange(0, 4)[2] == dr[1]);
                assert(r2[0] == 't');
                let r3 = r2.subrange(1, r2.len() as int);
                if r2.len() >= 4 && r2.subrange(0, 4) == h {
                    assert(r2.subrange(0, 4)[0] == r2[0]);
                }
                assert(defanged(r2) == seq![r2[0]] + defanged(r3));
                defanged_len(r3);
                defanged_first(r3);
                assert(d.subrange(0, 4)[3] == dr[2]);
                assert(r3[0] == 'p');
                assert(s.subrange(0, 4) =~= h);
            }
        }
    }
}

/// Replaces every `http` in `s` by `hxxp`.
pub fn defang(s: &str) -> (r: String)
    ensures
        r@ == defanged(s@),
{
    let sv = chars_of(s);
    let n = sv.len();
    let mut out = String::new();
    let mut i: usize = 0;
    assert(s@.subrange(0, n as int) =~= s@);
    while i < n
        invariant
            sv@ == s@,
            n == s@.len(),
            i <= n,
            out@ + defanged(s@.subrange(i as int, n as int)) == defanged(s@),
        decreases n - i,
    {
        let rest = Ghost(s@.subrange(i as int, n as int));
        if n - i >= 4 && sv[i] == 'h' && sv[i + 1] == 't' && sv[i + 2] == 't' && sv[i + 3] == 'p' {
            assert(rest@.subrange(0, 4) =~= http_chars());
            assert(rest@.subrange(4, rest@.len() as int) =~= s@.subrange(i + 4, n as int));
            out.append("hxxp");
            proof {
                reveal_strlit("hxxp");
                assert("hxxp"@ =~= hxxp_chars());
                assert(out@ + defanged(s@.subrange(i + 4, n as int)) =~= defanged(s@));
            }
            i = i + 4;
        } else {
            assert(rest@.len() < 4 || rest@.subrange(0, 4) != http_chars()) by {
                if rest@.len() >= 4 && rest@.subrange(0, 4) == http_chars() {
                    assert(rest@.subrange(0, 4)[0] == sv@[i as int]);
                    assert(rest@.subrange(0, 4)[1] == sv@[i + 1]);
                    assert(rest@.subrange(0, 4)[2] == sv@[i + 2]);
                    assert(rest@.subrange(0, 4)[3] == sv@[i + 3]);
                }
            }
            assert(rest@.subrange(1, rest@.len() as int) =~= s@.subrange(i + 1, n as int));
            let piece = s.substring_char(i, i + 1);
            assert(piece@ =~= seq![rest@[0]]);
            out.append(piece);
            assert(out@ + defanged(s@.subrange(i + 1, n as int)) =~= defanged(s@));
            i = i + 1;
        }
    }
    assert(s@.subrange(n as int, n as int) =~= Seq::<char>::empty());
    assert(out@ =~= out@ + defanged(s@.subrange(n as int, n as int)));
    out
}

/// Tags joined into one text with `:` between neighbours.
pub open spec fn joined_tags(tags: Seq<Seq<char>>) -> Seq<char>
    decreases tags.len(),
{
    if tags.len() == 0 {
        Seq::empty()
    } else if tags.len() == 1 {
        tags[0]
    } else {
        joined_tags(tags.drop_last()) + seq![':'] + tags.last()
    }
}

/// Joins the tags with `:` as separator.
pub fn join_tags(tags: &Vec<String>) -> (r: String)
    ensures
        r@ == joined_tags(tags.deep_view()),
{
    let mut out = String::new();
    let mut i: usize = 0;
    while i < tags.len()
        invariant
            i <= tags@.len(),
            out@ == joined_tags(tags.deep_view().subrange(0, i as int)),
        decreases tags@.len() - i,
    {
        let ghost before = tags.deep_view().subrange(0, i as int);
        if i > 0 {
            out.append(":");
            proof { reveal_strlit(":"); }
        }
        out.append(tags[i].as_str());
        proof {
            let now = tags.deep_view().subrange(0, i + 1);
            assert(now.drop_last() =~= before);
            assert(now.last() == tags[i as int]@);
            if i == 0 {
                assert(out@ =~= joined_tags(now));
            } else {
                assert(":"@ =~= seq![':']);
                assert(out@ =~= joined_tags(now));
            }
        }
        i = i + 1;
    }
    assert(tags.deep_view().subrange(0, i as int) =~= tags.deep_view());
    out
}

/// The decimal digit for `d` in `0..10`.
pub open spec fn digit_char(d: nat) -> char {
    if d == 0 { '0' } else if d == 1 { '1' } else if d == 2 { '2' } else if d == 3 { '3' }
    else if d == 4 { '4' } else if d == 5 { '5' } else if d == 6 { '6' } else if d == 7 { '7' }
    else if d == 8 { '8' } else { '9' }
}

/// Decimal digits of a natural number, without leading zeros (`0` is `0`).
pub open spec fn nat_digits(n: nat) -> Seq<char>
    decreases n,
{
    if n < 10 {
        seq![digit_char(n)]
    } else {
        nat_digits(n / 10) + seq![digit_char(n % 10)]
    }
}

/// Decimal text of an integer, with a leading `-` when negative.
pub open spec fn decimal(n: int) -> Seq<char> {
    if n < 0 { seq!['-'] + nat_digits((-n) as nat) } else { nat_digits(n as nat) }
}

fn digit_text(d: u64) -> (r: &'static str)
    requires
        d < 10,
    ensures
        r@ == seq![digit_char(d as nat)],
{
    proof {
        reveal_strlit("0"); reveal_strlit("1"); reveal_strlit("2"); reveal_strlit("3");
        reveal_strlit("4"); reveal_strlit("5"); reveal_strlit("6"); reveal_strlit("7");
        reveal_strlit("8"); reveal_strlit("9");
    }
    let r = if d == 0 { "0" } else if d == 1 { "1" } else if d == 2 { "2" } else if d == 3 { "3" }
    else if d == 4 { "4" } else if d == 5 { "5" } else if d == 6 { "6" } else if d == 7 { "7" }
    else if d == 8 { "8" } else { "9" };
    assert(r@ =~= seq![digit_char(d as nat)]);
    r
}

fn nat_text(n: u64) -> (r: String)
    ensures
        r@ == nat_digits(n as nat),
    decreases n,
{
    if n < 10 {
        String::from_str(digit_text(n))
    } else {
        let mut head = nat_text(n / 10);
        head.append(digit_text(n % 10));
        head
    }
}

/// Decimal rendering of a signed 32-bit integer, as `Display` writes it.
pub fn int_text(n: i32) -> (r: String)
    ensures
        r@ == decimal(n as int),
{
    if n < 0 {
        let mag: u64 = (0i64 - (n as i64)) as u64;
        let mut r = String::from_str("-");
        proof { reveal_strlit("-"); }
        r.append(nat_text(mag).as_str());
        r
    } else {
        nat_text(n as u64)
    }
}

} // verus!
