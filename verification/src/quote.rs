use vstd::prelude::*;

verus! {

/// The error kinds of the quote fetcher.
#[derive(Clone, Copy, Debug, PartialEq, Eq, Structural)]
pub enum QuoteError {
    TokenMissing,
    TokenUnauthorized,
    QuoteShapeMismatch,
    QuoteTransport,
}

/// What an HTTP status of the quote endpoint means: 200 carries a quote,
/// 401 is an invalid token, anything else a transport or protocol failure.
pub fn classify_status(status: u16) -> (r: Result<(), QuoteError>)
    ensures
        status == 200 ==> r == Ok::<(), QuoteError>(()),
        status == 401 ==> r == Err::<(), QuoteError>(QuoteError::TokenUnauthorized),
        status != 200 && status != 401 ==> r == Err::<(), QuoteError>(QuoteError::QuoteTransport),
{
    if status == 200 {
        Ok(())
    } else if status == 401 {
        Err(QuoteError::TokenUnauthorized)
    } else {
        Err(QuoteError::QuoteTransport)
    }
}

/// The fixed part of the quote endpoint before the symbol.
pub open spec fn spec_quote_url_prefix() -> Seq<char> {
    seq![
        'h', 't', 't', 'p', 's', ':', '/', '/', 'f', 'i', 'n', 'n', 'h', 'u', 'b', '.', 'i', 'o',
        '/', 'a', 'p', 'i', '/', 'v', '1', '/', 'q', 'u', 'o', 't', 'e', '?', 's', 'y', 'm', 'b',
        'o', 'l', '=',
    ]
}

/// The separator between the symbol and the token query parameter.
pub open spec fn spec_token_sep() -> Seq<char> {
    seq!['&', 't', 'o', 'k', 'e', 'n', '=']
}

/// The quote request URL for a symbol and a token.
pub open spec fn spec_quote_url(symbol: Seq<char>, token: Seq<char>) -> Seq<char> {
    spec_quote_url_prefix() + symbol + spec_token_sep() + token
}

/// Appends the characters of `src` to `dst`, in order.
fn append_chars(dst: &mut Vec<char>, src: &Vec<char>)
    ensures
        final(dst)@ == old(dst)@ + src@,
{
    let mut i: usize = 0;
    while i < src.len()
        invariant
            i <= src@.len(),
            dst@ =~= old(dst)@ + src@.take(i as int),
        decreases src@.len() - i,
    {
        dst.push(src[i]);
        proof {
            assert(dst@ =~= old(dst)@ + src@.take(i + 1));
        }
        i = i + 1;
    }
    proof {
        assert(old(dst)@ + src@.take(src@.len() as int) =~= old(dst)@ + src@);
    }
}

/// Builds `spec_quote_url`: the GET URL of the quote endpoint, with the
/// symbol and the bearer token as its two query parameters.
pub fn quote_url(symbol: &Vec<char>, token: &Vec<char>) -> (r: Vec<char>)
    ensures
        r@ == spec_quote_url(symbol@, token@),
{
    let mut r: Vec<char> = Vec::new();
    r.push('h');
    r.push('t');
    r.push('t');
    r.push('p');
    r.push('s');
    r.push(':');
    r.push('/');
    r.push('/');
    r.push('f');
    r.push('i');
    r.push('n');
    r.push('n');
    r.push('h');
    r.push('u');
    r.push('b');
    r.push('.');
    r.push('i');
    r.push('o');
    r.push('/');
    r.push('a');
    r.push('p');
    r.push('i');
    r.push('/');
    r.push('v');
    r.push('1');
    r.push('/');
    r.push('q');
    r.push('u');
    r.push('o');
    r.push('t');
    r.push('e');
    r.push('?');
    r.push('s');
    r.push('y');
    r.push('m');
    r.push('b');
    r.push('o');
    r.push('l');
    r.push('=');
    proof {
        assert(r@ =~= spec_quote_url_prefix());
    }
    append_chars(&mut r, symbol);
    let mut sep: Vec<char> = Vec::new();
    sep.push('&');
    sep.push('t');
    sep.push('o');
    sep.push('k');
    sep.push('e');
    sep.push('n');
    sep.push('=');
    proof {
        assert(sep@ =~= spec_token_sep());
    }
    append_chars(&mut r, &sep);
    append_chars(&mut r, token);
    proof {
        assert(r@ =~= spec_quote_url(symbol@, token@));
    }
    r
}

/// The whitespace that may surround the token in its one-line file.
pub open spec fn is_space(c: char) -> bool {
    c == ' ' || c == '\t' || c == '\r' || c == '\n'
}

/// The sequence with its leading whitespace removed.
pub open spec fn spec_trim_front(s: Seq<char>) -> Seq<char>
    decreases s.len(),
{
    if s.len() > 0 && is_space(s[0]) {
        spec_trim_front(s.drop_first())
    } else {
        s
    }
}

/// The sequence with its trailing whitespace removed.
pub open spec fn spec_trim_back(s: Seq<char>) -> Seq<char>
    decreases s.len(),
{
    if s.len() > 0 && is_space(s.last()) {
        spec_trim_back(s.drop_last())
    } else {
        s
    }
}

/// The sequence with whitespace removed from both ends.
pub open spec fn spec_trim(s: Seq<char>) -> Seq<char> {
    spec_trim_back(spec_trim_front(s))
}

/// Computes `is_space`.
fn is_space_char(c: char) -> (r: bool)
    ensures
        r == is_space(c),
{
    c == ' ' || c == '\t' || c == '\r' || c == '\n'
}

/// Trimming the front skips exactly the leading run of whitespace.
proof fn lemma_trim_front_skip(s: Seq<char>, a: int)
    requires
        0 <= a <= s.len(),
        forall|i: int| 0 <= i < a ==> is_space(#[trigger] s[i]),
        a == s.len() || !is_space(s[a]),
    ensures
        spec_trim_front(s) =~= s.skip(a),
    decreases a,
{
    if a == 0 {
        assert(s.skip(0) =~= s);
    } else {
        assert(is_space(s[0]));
        lemma_trim_front_skip(s.drop_first(), a - 1);
        assert(s.drop_first().skip(a - 1) =~= s.skip(a));
    }
}

/// Trimming the back keeps exactly the part before the trailing run of
/// whitespace.
proof fn lemma_trim_back_take(s: Seq<char>, b: int)
    requires
        0 <= b <= s.len(),
        forall|i: int| b <= i < s.len() ==> is_space(#[trigger] s[i]),
        b == 0 || !is_space(s[b - 1]),
    ensures
        spec_trim_back(s) =~= s.take(b),
    decreases s.len() - b,
{
    if b == s.len() {
        assert(s.take(b) =~= s);
    } else {
        assert(is_space(s.last()));
        lemma_trim_back_take(s.drop_last(), b);
        assert(s.drop_last().take(b) =~= s.take(b));
    }
}

/// Computes `spec_trim`: the characters with the whitespace around them
/// removed, as for the one-line token file.
pub fn trim_chars(v: &Vec<char>) -> (r: Vec<char>)
    ensures
        r@ == spec_trim(v@),
{
    let n = v.len();
    let mut a: usize = 0;
    while a < n && is_space_char(v[a])
        invariant
            n == v@.len(),
            a <= n,
            forall|i: int| 0 <= i < a ==> is_space(#[trigger] v@[i]),
        decreases n - a,
    {
        a = a + 1;
    }
    let mut b: usize = n;
    while b > a && is_space_char(v[b - 1])
        invariant
            n == v@.len(),
            a <= b <= n,
            forall|i: int| b <= i < n ==> is_space(#[trigger] v@[i]),
        decreases b,
    {
        b = b - 1;
    }
    proof {
        lemma_trim_front_skip(v@, a as int);
        lemma_trim_back_take(v@.skip(a as int), b - a);
        assert(v@.skip(a as int).take(b - a) =~= v@.subrange(a as int, b as int));
    }
    let mut r: Vec<char> = Vec::new();
    let mut i: usize = a;
    while i < b
        invariant
            a <= i <= b <= v@.len(),
            r@ =~= v@.subrange(a as int, i as int),
        decreases b - i,
    {
        r.push(v[i]);
        proof {
            assert(r@ =~= v@.subrange(a as int, i + 1));
        }
        i = i + 1;
    }
    r
}

/// The bearer token read from its one-line file: the line trimmed, and
/// `TokenMissing` when nothing but whitespace is there.
pub fn token_from_file_text(raw: &Vec<char>) -> (r: Result<Vec<char>, QuoteError>)
    ensures
        spec_trim(raw@).len() > 0 ==> (r matches Ok(t) && t@ == spec_trim(raw@)),
        spec_trim(raw@).len() == 0 ==> (r matches Err(e) && e == QuoteError::TokenMissing),
{
    let t = trim_chars(raw);
    if t.len() == 0 {
        Err(QuoteError::TokenMissing)
    } else {
        Ok(t)
    }
}

} // verus!
