//! Cookies: splitting a `Cookie` header value into its pairs and finding a
//! cookie's value by name, with the `cookie` crate doing the parsing.

use vstd::prelude::*;

verus! {

/// `char::is_whitespace`: the characters of the Unicode White_Space
/// property.
pub open spec fn is_unicode_whitespace(c: char) -> bool {
    let u = c as u32;
    ||| 0x09 <= u <= 0x0D
    ||| u == 0x20
    ||| u == 0x85
    ||| u == 0xA0
    ||| u == 0x1680
    ||| 0x2000 <= u <= 0x200A
    ||| u == 0x2028
    ||| u == 0x2029
    ||| u == 0x202F
    ||| u == 0x205F
    ||| u == 0x3000
}

/// `str::trim_start`: without its leading whitespace.
pub open spec fn trim_start(s: Seq<char>) -> Seq<char>
    decreases s.len(),
{
    if s.len() > 0 && is_unicode_whitespace(s[0]) {
        trim_start(s.drop_first())
    } else {
        s
    }
}

/// `str::trim_end`: without its trailing whitespace.
pub open spec fn trim_end(s: Seq<char>) -> Seq<char>
    decreases s.len(),
{
    if s.len() > 0 && is_unicode_whitespace(s.last()) {
        trim_end(s.drop_last())
    } else {
        s
    }
}

/// `str::trim`: without leading and trailing whitespace.
pub open spec fn trim(s: Seq<char>) -> Seq<char> {
    trim_end(trim_start(s))
}

/// The position of the first `c` in `s`, if any.
pub open spec fn first_index_of(s: Seq<char>, c: char) -> Option<int>
    decreases s.len(),
{
    if s.len() == 0 {
        None
    } else if s[0] == c {
        Some(0)
    } else {
        match first_index_of(s.drop_first(), c) {
            Some(i) => Some(i + 1),
            None => None,
        }
    }
}

/// `s` without one pair of surrounding double quotes, where it has them.
pub open spec fn trim_quotes(s: Seq<char>) -> Seq<char> {
    if s.len() >= 2 && s[0] == '"' && s.last() == '"' {
        s.subrange(1, s.len() - 1)
    } else {
        s
    }
}

/// The name and value that `cookie::Cookie::parse` finds in a cookie
/// string: the text before the first `;` must hold a `=`; the name is what
/// precedes it, trimmed, and must not be empty; the value is what follows
/// it, trimmed, without surrounding quotes, trimmed again. Attributes after
/// the first `;` never make parsing fail.
pub open spec fn cookie_name_value(s: Seq<char>) -> Option<(Seq<char>, Seq<char>)> {
    let pair = match first_index_of(s, ';') {
        Some(i) => s.take(i),
        None => s,
    };
    match first_index_of(pair, '=') {
        None => None,
        Some(i) => {
            let name = trim(pair.take(i));
            if name.len() == 0 {
                None
            } else {
                Some((name, trim(trim_quotes(trim(pair.skip(i + 1))))))
            }
        },
    }
}

/// `cookie::Cookie::parse` (without percent-decoding): the cookie's name
/// and value where the string parses, `None` where it fails (no `=` in the
/// name-value pair, or an empty name). Both outcomes are those of
/// `cookie_name_value` on the string.
#[verifier::external_body]
fn parse_cookie_name_value(s: &str) -> (r: Option<(String, String)>)
    ensures
        r matches Some((name, value)) ==> cookie_name_value(s@) == Some((name@, value@)),
        r is None ==> cookie_name_value(s@) is None,
{
    match cookie::Cookie::parse(s) {
        Ok(c) => Some((c.name().to_string(), c.value().to_string())),
        Err(_) => None,
    }
}

/// Splitting `s[start..]` on `"; "`, the scan standing at `i`: the pieces
/// between separators, from left to right, the last one running to the end.
pub open spec fn split_pairs_from(s: Seq<char>, start: int, i: int) -> Seq<Seq<char>>
    decreases s.len() - i,
{
    if i + 1 >= s.len() {
        seq![s.subrange(start, s.len() as int)]
    } else if s[i] == ';' && s[i + 1] == ' ' {
        seq![s.subrange(start, i)] + split_pairs_from(s, i + 2, i + 2)
    } else {
        split_pairs_from(s, start, i + 1)
    }
}

/// `s.split("; ")`: the cookie pairs of a `Cookie` header value.
pub open spec fn split_cookie_pairs(s: Seq<char>) -> Seq<Seq<char>> {
    split_pairs_from(s, 0, 0)
}

/// Cookie pairs joined by `"; "`, as a `Cookie` header value lists them.
pub open spec fn join_cookie_pairs(pieces: Seq<Seq<char>>) -> Seq<char>
    decreases pieces.len(),
{
    if pieces.len() == 0 {
        Seq::empty()
    } else if pieces.len() == 1 {
        pieces[0]
    } else {
        pieces[0] + seq![';', ' '] + join_cookie_pairs(pieces.drop_first())
    }
}

proof fn lemma_split_pairs_from_join(s: Seq<char>, start: int, i: int)
    requires
        0 <= start <= i,
        i <= s.len(),
    ensures
        split_pairs_from(s, start, i).len() >= 1,
        join_cookie_pairs(split_pairs_from(s, start, i)) == s.subrange(start, s.len() as int),
    decreases s.len() - i,
{
    if i + 1 >= s.len() {
    } else if s[i] == ';' && s[i + 1] == ' ' {
        lemma_split_pairs_from_join(s, i + 2, i + 2);
        let rest = split_pairs_from(s, i + 2, i + 2);
        let pieces = split_pairs_from(s, start, i);
        assert(pieces == seq![s.subrange(start, i)] + rest);
        assert(pieces.drop_first() =~= rest);
        assert(s.subrange(start, s.len() as int) =~= s.subrange(start, i) + seq![';', ' ']
            + s.subrange(i + 2, s.len() as int));
    } else {
        lemma_split_pairs_from_join(s, start, i + 1);
    }
}

/// Joining the pairs of a `Cookie` header value with `"; "` gives the value
/// back: splitting loses nothing.
pub proof fn law_cookie_pairs_split_join(s: Seq<char>)
    ensures
        join_cookie_pairs(split_cookie_pairs(s)) == s,
{
    lemma_split_pairs_from_join(s, 0, 0);
    assert(s.subrange(0, s.len() as int) =~= s);
}

/// Splits a `Cookie` header value on `"; "`, as `str::split` does: every
/// piece between separators, empty ones included.
pub fn split_cookie_str(s: &str) -> (pieces: Vec<String>)
    ensures
        pieces@.map_values(|p: String| p@) == split_cookie_pairs(s@),
{
    let n = s.unicode_len();
    let mut pieces: Vec<String> = Vec::new();
    let mut start: usize = 0;
    let mut i: usize = 0;
    while n - i >= 2
        invariant
            n == s@.len(),
            start <= i <= n,
            pieces@.map_values(|p: String| p@) + split_pairs_from(s@, start as int, i as int)
                == split_cookie_pairs(s@),
        decreases n - i,
    {
        let ghost before = pieces@.map_values(|p: String| p@);
        if s.get_char(i) == ';' && s.get_char(i + 1) == ' ' {
            let piece = s.substring_char(start, i).to_owned();
            pieces.push(piece);
            proof {
                assert(pieces@.map_values(|p: String| p@) =~= before.push(s@.subrange(
                    start as int,
                    i as int,
                )));
            }
            i = i + 2;
            start = i;
        } else {
            i = i + 1;
        }
    }
    let ghost before = pieces@.map_values(|p: String| p@);
    let last = s.substring_char(start, n).to_owned();
    pieces.push(last);
    proof {
        assert(pieces@.map_values(|p: String| p@) =~= before.push(s@.subrange(
            start as int,
            n as int,
        )));
    }
    pieces
}

/// What looking a cookie up by name in a list of cookie strings comes to.
pub enum CookieLookup {
    /// The first cookie of that name has this value.
    Found(Seq<char>),
    /// Every string parses and none names that cookie.
    Absent,
    /// A string before the first cookie of that name does not parse.
    Unparsable,
}

/// Looking up `name` in `pieces` from left to right: each string is parsed
/// until one names the cookie, and the first that does not parse ends the
/// search.
pub open spec fn lookup_cookie(pieces: Seq<Seq<char>>, name: Seq<char>) -> CookieLookup
    decreases pieces.len(),
{
    if pieces.len() == 0 {
        CookieLookup::Absent
    } else {
        match cookie_name_value(pieces[0]) {
            None => CookieLookup::Unparsable,
            Some((n, v)) => if n == name {
                CookieLookup::Found(v)
            } else {
                lookup_cookie(pieces.drop_first(), name)
            },
        }
    }
}

/// Where the cookie strings up to index `j` all parse and the one at `j` is
/// the first named `name`, the lookup finds the value of that string,
/// whatever its index and whatever follows it.
pub proof fn law_lookup_cookie_first_match(pieces: Seq<Seq<char>>, name: Seq<char>, j: int)
    requires
        0 <= j < pieces.len(),
        forall|i: int| 0 <= i <= j ==> (#[trigger] cookie_name_value(pieces[i])) is Some,
        cookie_name_value(pieces[j]).unwrap().0 == name,
        forall|i: int| 0 <= i < j ==> (#[trigger] cookie_name_value(pieces[i])).unwrap().0 != name,
    ensures
        lookup_cookie(pieces, name) == CookieLookup::Found(cookie_name_value(pieces[j]).unwrap().1),
    decreases j,
{
    if j > 0 {
        let rest = pieces.drop_first();
        assert(cookie_name_value(pieces[0]) is Some);
        assert(cookie_name_value(pieces[0]).unwrap().0 != name);
        assert forall|i: int| 0 <= i <= j - 1 implies (#[trigger] cookie_name_value(rest[i])) is Some by {
            assert(rest[i] == pieces[i + 1]);
        }
        assert forall|i: int| 0 <= i < j - 1 implies (#[trigger] cookie_name_value(rest[i])).unwrap().0
            != name by {
            assert(rest[i] == pieces[i + 1]);
        }
        assert(rest[j - 1] == pieces[j]);
        law_lookup_cookie_first_match(rest, name, j - 1);
    }
}

/// Where every cookie string parses and none is named `name`, the lookup
/// finds nothing.
pub proof fn law_lookup_cookie_absent(pieces: Seq<Seq<char>>, name: Seq<char>)
    requires
        forall|i: int| 0 <= i < pieces.len() ==> (#[trigger] cookie_name_value(pieces[i])) is Some,
        forall|i: int| 0 <= i < pieces.len() ==> (#[trigger] cookie_name_value(pieces[i])).unwrap().0
            != name,
    ensures
        lookup_cookie(pieces, name) == CookieLookup::Absent,
    decreases pieces.len(),
{
    if pieces.len() > 0 {
        let rest = pieces.drop_first();
        assert(cookie_name_value(pieces[0]) is Some);
        assert(cookie_name_value(pieces[0]).unwrap().0 != name);
        assert forall|i: int| 0 <= i < rest.len() implies (#[trigger] cookie_name_value(rest[i])) is Some by {
            assert(rest[i] == pieces[i + 1]);
        }
        assert forall|i: int| 0 <= i < rest.len() implies (#[trigger] cookie_name_value(rest[i])).unwrap().0
            != name by {
            assert(rest[i] == pieces[i + 1]);
        }
        law_lookup_cookie_absent(rest, name);
    }
}

/// Where the cookie string at `j` does not parse and every one before it
/// parses under another name, the lookup reports a string that does not
/// parse.
pub proof fn law_lookup_cookie_unparsable(pieces: Seq<Seq<char>>, name: Seq<char>, j: int)
    requires
        0 <= j < pieces.len(),
        cookie_name_value(pieces[j]) is None,
        forall|i: int| 0 <= i < j ==> (#[trigger] cookie_name_value(pieces[i])) is Some,
        forall|i: int| 0 <= i < j ==> (#[trigger] cookie_name_value(pieces[i])).unwrap().0 != name,
    ensures
        lookup_cookie(pieces, name) == CookieLookup::Unparsable,
    decreases j,
{
    if j > 0 {
        let rest = pieces.drop_first();
        assert(cookie_name_value(pieces[0]) is Some);
        assert(cookie_name_value(pieces[0]).unwrap().0 != name);
        assert forall|i: int| 0 <= i < j - 1 implies (#[trigger] cookie_name_value(rest[i])) is Some by {
            assert(rest[i] == pieces[i + 1]);
        }
        assert forall|i: int| 0 <= i < j - 1 implies (#[trigger] cookie_name_value(rest[i])).unwrap().0
            != name by {
            assert(rest[i] == pieces[i + 1]);
        }
        assert(rest[j - 1] == pieces[j]);
        law_lookup_cookie_unparsable(rest, name, j - 1);
    }
}

/// A cookie string met during a lookup that does not parse.
#[derive(Debug, PartialEq, Eq, Clone, Copy)]
pub struct MalformedCookie;

/// Finds the value of the first cookie named `name` among `cookie_strs`,
/// parsing each in order: `Ok(Some(value))` where one is found,
/// `Ok(None)` where all parse and none has that name, and
/// `Err(MalformedCookie)` where a string before the first match does not
/// parse.
pub fn find_cookie_value(cookie_strs: &Vec<String>, name: &str) -> (r: Result<
    Option<String>,
    MalformedCookie,
>)
    ensures
        r matches Ok(Some(v)) ==> lookup_cookie(cookie_strs@.map_values(|p: String| p@), name@)
            == CookieLookup::Found(v@),
        r matches Ok(None) ==> lookup_cookie(cookie_strs@.map_values(|p: String| p@), name@)
            == CookieLookup::Absent,
        r is Err ==> lookup_cookie(cookie_strs@.map_values(|p: String| p@), name@)
            == CookieLookup::Unparsable,
{
    let ghost all = cookie_strs@.map_values(|p: String| p@);
    let wanted: String = name.to_owned();
    let mut k: usize = 0;
    assert(all.skip(0) =~= all);
    while k < cookie_strs.len()
        invariant
            k <= cookie_strs@.len(),
            all == cookie_strs@.map_values(|p: String| p@),
            wanted@ == name@,
            lookup_cookie(all, name@) == lookup_cookie(all.skip(k as int), name@),
        decreases cookie_strs@.len() - k,
    {
        let ghost rest = all.skip(k as int);
        assert(rest[0] == cookie_strs@[k as int]@);
        match parse_cookie_name_value(cookie_strs[k].as_str()) {
            None => {
                return Err(MalformedCookie);
            },
            Some((cookie_name, cookie_value)) => {
                if cookie_name == wanted {
                    return Ok(Some(cookie_value));
                }
                assert(rest.drop_first() =~= all.skip(k + 1));
            },
        }
        k = k + 1;
    }
    assert(all.skip(k as int).len() == 0);
    Ok(None)
}

} // verus!
