use vstd::prelude::*;

verus! {

/// Why a request head yields no path.
#[derive(Debug, Clone, Copy, PartialEq, Eq, Structural)]
pub enum RequestError {
    /// No line came before the blank line: the connection is closed without a reply.
    EmptyRequest,
    /// The request line has no second token.
    MalformedRequest,
}

/// ASCII whitespace as `str::split_ascii_whitespace` knows it: space, tab, line feed,
/// form feed and carriage return.
pub open spec fn is_space(c: char) -> bool {
    c == ' ' || c == '\t' || c == '\n' || c == '\x0C' || c == '\r'
}

/// The first position at or after `i` that holds no whitespace, or the end.
pub open spec fn skip_space(s: Seq<char>, i: int) -> int
    decreases s.len() - i,
{
    if i < 0 || i >= s.len() || !is_space(s[i]) {
        i
    } else {
        skip_space(s, i + 1)
    }
}

/// The first position at or after `i` that holds whitespace, or the end.
pub open spec fn word_end(s: Seq<char>, i: int) -> int
    decreases s.len() - i,
{
    if i < 0 || i >= s.len() || is_space(s[i]) {
        i
    } else {
        word_end(s, i + 1)
    }
}

/// The whitespace-separated words of `s` from position `i` on.
pub open spec fn words_from(s: Seq<char>, i: int) -> Seq<Seq<char>>
    decreases s.len() - i,
{
    let a = skip_space(s, i);
    if i < 0 || a >= s.len() {
        Seq::empty()
    } else {
        let b = word_end(s, a);
        if b <= i || b > s.len() {
            Seq::empty()
        } else {
            seq![s.subrange(a, b)] + words_from(s, b)
        }
    }
}

/// The whitespace-separated words of `s`, in order.
pub open spec fn words(s: Seq<char>) -> Seq<Seq<char>> {
    words_from(s, 0)
}

/// What the head of a request (its lines before the blank one) asks for: the second
/// word of its first line.
pub open spec fn path_of_head(head: Seq<Seq<char>>) -> Result<Seq<char>, RequestError> {
    if head.len() == 0 {
        Err(RequestError::EmptyRequest)
    } else if words(head[0]).len() < 2 {
        Err(RequestError::MalformedRequest)
    } else {
        Ok(words(head[0])[1])
    }
}

proof fn lemma_skip_space(s: Seq<char>, i: int)
    requires
        0 <= i <= s.len(),
    ensures
        i <= skip_space(s, i) <= s.len(),
        skip_space(s, i) < s.len() ==> !is_space(s[skip_space(s, i)]),
    decreases s.len() - i,
{
    if i < s.len() && is_space(s[i]) {
        lemma_skip_space(s, i + 1);
    }
}

proof fn lemma_word_end(s: Seq<char>, i: int)
    requires
        0 <= i <= s.len(),
    ensures
        i <= word_end(s, i) <= s.len(),
    decreases s.len() - i,
{
    if i < s.len() && !is_space(s[i]) {
        lemma_word_end(s, i + 1);
    }
}

fn char_is_space(c: char) -> (r: bool)
    ensures
        r == is_space(c),
{
    c == ' ' || c == '\t' || c == '\n' || c == '\x0C' || c == '\r'
}

/// The first position at or after `i` in `line` that holds no whitespace.
fn skip_space_at(line: &str, n: usize, i: usize) -> (r: usize)
    requires
        n == line@.len(),
        i <= n,
    ensures
        r == skip_space(line@, i as int),
        i <= r <= n,
{
    let mut j = i;
    while j < n && char_is_space(line.get_char(j))
        invariant
            n == line@.len(),
            i <= j <= n,
            skip_space(line@, j as int) == skip_space(line@, i as int),
        decreases n - j,
    {
        j = j + 1;
    }
    j
}

/// The first position at or after `i` in `line` that holds whitespace.
fn word_end_at(line: &str, n: usize, i: usize) -> (r: usize)
    requires
        n == line@.len(),
        i <= n,
    ensures
        r == word_end(line@, i as int),
        i <= r <= n,
{
    let mut j = i;
    while j < n && !char_is_space(line.get_char(j))
        invariant
            n == line@.len(),
            i <= j <= n,
            word_end(line@, j as int) == word_end(line@, i as int),
        decreases n - j,
    {
        j = j + 1;
    }
    j
}

/// The path a request asks for: the second whitespace-separated word of the first line
/// of its head.
pub fn request_path(head: &Vec<String>) -> (r: Result<String, RequestError>)
    ensures
        match (r, path_of_head(head.deep_view())) {
            (Ok(p), Ok(q)) => p@ == q,
            (Err(e), Err(f)) => e == f,
            _ => false,
        },
{
    let ghost h = head.deep_view();
    if head.len() == 0 {
        return Err(RequestError::EmptyRequest);
    }
    let line = head[0].as_str();
    assert(line@ == h[0]);
    let ghost s = line@;
    let n = line.unicode_len();
    let a0 = skip_space_at(line, n, 0);
    if a0 >= n {
        assert(words(s) == Seq::<Seq<char>>::empty());
        return Err(RequestError::MalformedRequest);
    }
    let b0 = word_end_at(line, n, a0);
    proof {
        lemma_skip_space(s, 0);
        lemma_word_end(s, a0 + 1);
        assert(b0 > a0);
        assert(words(s) == seq![s.subrange(a0 as int, b0 as int)] + words_from(s, b0 as int));
    }
    let a1 = skip_space_at(line, n, b0);
    if a1 >= n {
        assert(words_from(s, b0 as int) == Seq::<Seq<char>>::empty());
        assert(words(s).len() == 1);
        return Err(RequestError::MalformedRequest);
    }
    let b1 = word_end_at(line, n, a1);
    proof {
        lemma_skip_space(s, b0 as int);
        lemma_word_end(s, a1 + 1);
        assert(b1 > a1);
        assert(words_from(s, b0 as int) == seq![s.subrange(a1 as int, b1 as int)] + words_from(
            s,
            b1 as int,
        ));
        assert(words(s)[1] == s.subrange(a1 as int, b1 as int));
    }
    let word = line.substring_char(a1, b1);
    Ok(word.to_string())
}

/// The file a request path names under the root folder: the two joined as they are.
pub fn lookup_path(folder: &str, request_path: &str) -> (r: String)
    ensures
        r@ == folder@ + request_path@,
{
    let mut p = folder.to_string();
    p.append(request_path);
    p
}

/// The page served when a file cannot be: `notfound.html` at the top of the root folder.
pub fn not_found_path(folder: &str) -> (r: String)
    ensures
        r@ == folder@ + "/notfound.html"@,
{
    let mut p = folder.to_string();
    p.append("/notfound.html");
    p
}

} // verus!
