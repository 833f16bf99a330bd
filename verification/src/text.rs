use vstd::prelude::*;

verus! {

/// `s` with `t` appended.
pub fn join2(s: &str, t: &str) -> (r: String)
    ensures
        r@ == s@ + t@,
{
    let mut r = String::from_str(s);
    r.append(t);
    r
}

/// The three pieces one after the other.
pub fn join3(a: &str, b: &str, c: &str) -> (r: String)
    ensures
        r@ == a@ + b@ + c@,
{
    let mut r = String::from_str(a);
    r.append(b);
    r.append(c);
    r
}

/// The five pieces one after the other.
pub fn join5(a: &str, b: &str, c: &str, d: &str, e: &str) -> (r: String)
    ensures
        r@ == a@ + b@ + c@ + d@ + e@,
{
    let mut r = String::from_str(a);
    r.append(b);
    r.append(c);
    r.append(d);
    r.append(e);
    r
}

/// Whether `s` begins with `prefix`.
pub fn starts_with(s: &str, prefix: &str) -> (r: bool)
    ensures
        r == prefix@.is_prefix_of(s@),
{
    let n = prefix.unicode_len();
    let m = s.unicode_len();
    if n > m {
        return false;
    }
    let mut i: usize = 0;
    while i < n
        invariant
            n == prefix@.len(),
            m == s@.len(),
            n <= m,
            i <= n,
            forall|j: int| 0 <= j < i ==> prefix@[j] == s@[j],
        decreases n - i,
    {
        if prefix.get_char(i) != s.get_char(i) {
            return false;
        }
        i = i + 1;
    }
    true
}

/// `s` without its leading `prefix`, or `None` where `s` does not begin with it.
pub fn strip_prefix(s: &str, prefix: &str) -> (r: Option<String>)
    ensures
        r is Some <==> prefix@.is_prefix_of(s@),
        r matches Some(t) ==> t@ == s@.skip(prefix@.len() as int),
{
    if starts_with(s, prefix) {
        let n = prefix.unicode_len();
        let m = s.unicode_len();
        let rest = s.substring_char(n, m);
        Some(String::from_str(rest))
    } else {
        None
    }
}

/// The position of the first `/` in `s`, or its length where it has none.
pub open spec fn slash_index(s: Seq<char>) -> int
    decreases s.len(),
{
    if s.len() == 0 {
        0
    } else if s[0] == '/' {
        0
    } else {
        1 + slash_index(s.drop_first())
    }
}

/// The second of the `/`-separated parts of `s`, where it has one.
pub open spec fn second_segment(s: Seq<char>) -> Option<Seq<char>> {
    let i = slash_index(s);
    if i >= s.len() {
        None
    } else {
        let rest = s.skip(i + 1);
        Some(rest.take(slash_index(rest)))
    }
}

proof fn lemma_slash_index_is_first(s: Seq<char>, k: int)
    requires
        0 <= k <= s.len(),
        k < s.len() ==> s[k] == '/',
        forall|j: int| 0 <= j < k ==> s[j] != '/',
    ensures
        slash_index(s) == k,
    decreases s.len(),
{
    if s.len() > 0 && s[0] != '/' {
        lemma_slash_index_is_first(s.drop_first(), k - 1);
    }
}

fn find_slash(s: &str, from: usize) -> (r: usize)
    requires
        from <= s@.len(),
    ensures
        from <= r <= s@.len(),
        r - from == slash_index(s@.skip(from as int)),
{
    let m = s.unicode_len();
    let mut i: usize = from;
    while i < m && s.get_char(i) != '/'
        invariant
            m == s@.len(),
            from <= i <= m,
            forall|j: int| from <= j < i ==> s@[j] != '/',
        decreases m - i,
    {
        i = i + 1;
    }
    proof {
        let t = s@.skip(from as int);
        lemma_slash_index_is_first(t, i - from);
    }
    i
}

/// The second part of `s` split at `/`, as `s.split("/").nth(1)` gives it.
pub fn second_part(s: &str) -> (r: Option<String>)
    ensures
        r is Some <==> second_segment(s@) is Some,
        r matches Some(t) ==> t@ == second_segment(s@)->0,
{
    let m = s.unicode_len();
    let i = find_slash(s, 0);
    assert(s@.skip(0) =~= s@);
    if i >= m {
        return None;
    }
    let j = find_slash(s, i + 1);
    proof {
        let rest = s@.skip(i + 1);
        assert(s@.skip((i + 1) as int) =~= rest);
        assert(s@.subrange(i + 1, j as int) =~= rest.take(slash_index(rest)));
    }
    Some(String::from_str(s.substring_char(i + 1, j)))
}

/// The decimal digit character for `d`.
pub open spec fn digit_char(d: int) -> char {
    if d == 0 { '0' } else if d == 1 { '1' } else if d == 2 { '2' } else if d == 3 { '3' }
    else if d == 4 { '4' } else if d == 5 { '5' } else if d == 6 { '6' } else if d == 7 { '7' }
    else if d == 8 { '8' } else { '9' }
}

/// The decimal digits of `n`, most significant first, without leading zeros.
pub open spec fn digits(n: nat) -> Seq<char>
    decreases n,
{
    if n < 10 {
        seq![digit_char(n as int)]
    } else {
        digits(n / 10) + seq![digit_char((n % 10) as int)]
    }
}

/// `n` written in decimal, with a leading `-` when it is negative.
pub open spec fn decimal(n: int) -> Seq<char> {
    if n < 0 {
        seq!['-'] + digits((-n) as nat)
    } else {
        digits(n as nat)
    }
}

fn digit_str(d: u64) -> (r: &'static str)
    requires
        d < 10,
    ensures
        r@ == seq![digit_char(d as int)],
{
    if d == 0 { proof { reveal_strlit("0"); } "0" }
    else if d == 1 { proof { reveal_strlit("1"); } "1" }
    else if d == 2 { proof { reveal_strlit("2"); } "2" }
    else if d == 3 { proof { reveal_strlit("3"); } "3" }
    else if d == 4 { proof { reveal_strlit("4"); } "4" }
    else if d == 5 { proof { reveal_strlit("5"); } "5" }
    else if d == 6 { proof { reveal_strlit("6"); } "6" }
    else if d == 7 { proof { reveal_strlit("7"); } "7" }
    else if d == 8 { proof { reveal_strlit("8"); } "8" }
    else { proof { reveal_strlit("9"); } "9" }
}

fn push_digits(n: u64, out: &mut String)
    ensures
        final(out)@ == old(out)@ + digits(n as nat),
    decreases n,
{
    if n >= 10 {
        push_digits(n / 10, out);
    }
    out.append(digit_str(n % 10));
    proof {
        if n >= 10 {
            assert(digits(n as nat) == digits((n / 10) as nat) + seq![digit_char((n % 10) as int)]);
        }
    }
}

/// `n` written in decimal, as `n.to_string()` writes an integer.
pub fn decimal_i32(n: i32) -> (r: String)
    ensures
        r@ == decimal(n as int),
{
    let mut out = String::new();
    if n < 0 {
        proof { reveal_strlit("-"); }
        out.append("-");
        let m: i64 = -(n as i64);
        push_digits(m as u64, &mut out);
    } else {
        push_digits(n as u64, &mut out);
    }
    out
}

/// What `{:?}` writes for a string: the text in double quotes, with
/// quotes, backslashes and non-printable characters escaped.
pub uninterp spec fn debug_quoted(s: Seq<char>) -> Seq<char>;

/// Formats `s` as `format!("{:?}", s)` does.
#[verifier::external_body]
pub fn debug_text(s: &str) -> (r: String)
    ensures
        r@ == debug_quoted(s@),
{
    format!("{:?}", s)
}

} // verus!
