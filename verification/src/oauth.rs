//! The address that starts a sign-in, and what comes back on the callback
//! address: which requests carry the token, and where in them it stands.

use vstd::prelude::*;
use vstd::string::{StrSliceExecFns, StringExecFns, StringSliceAdditionalSpecFns};

verus! {

/// The address on which the sign-in calls back.
pub const REDIRECT_URI: &'static str = "http://127.0.0.1:8765";

/// What the sign-in asks permission for.
pub const SCOPE: &'static str = "openid email profile https://www.googleapis.com/auth/drive.file";

/// Whether a byte stands for itself in a percent-encoded text: letters,
/// digits, and `-`, `.`, `_`, `~`.
pub open spec fn is_unreserved(byte: u8) -> bool {
    (0x30 <= byte <= 0x39) || (0x41 <= byte <= 0x5a) || (0x61 <= byte <= 0x7a) || byte == 0x2d
        || byte == 0x2e || byte == 0x5f || byte == 0x7e
}

/// The upper-case hexadecimal digit of a value below sixteen.
pub open spec fn upper_hex(value: u8) -> char {
    if value < 10 {
        ((0x30 + value) as u8) as char
    } else {
        ((0x37 + value) as u8) as char
    }
}

/// One byte, percent-encoded: itself if it is unreserved, and otherwise `%`
/// and its two hexadecimal digits.
pub open spec fn percent_encoded_byte(byte: u8) -> Seq<char> {
    if is_unreserved(byte) {
        seq![byte as char]
    } else {
        seq!['%', upper_hex(byte / 16), upper_hex(byte % 16)]
    }
}

/// A byte string, percent-encoded byte by byte.
pub open spec fn percent_encoded(bytes: Seq<u8>) -> Seq<char>
    decreases bytes.len(),
{
    if bytes.len() == 0 {
        Seq::empty()
    } else {
        percent_encoded(bytes.drop_last()) + percent_encoded_byte(bytes.last())
    }
}

/// What `urlencoding::decode` makes of a text: every `%` that two
/// hexadecimal digits follow stands for one byte, and the bytes are read as
/// UTF-8; `None` where they are no UTF-8.
pub uninterp spec fn percent_decoded(text: Seq<char>) -> Option<Seq<char>>;

/// Whether a text holds a `%`, the sign that begins an encoded byte.
pub open spec fn has_escape(text: Seq<char>) -> bool {
    text.contains('%')
}

/// Calls `urlencoding::encode`.
///
/// Trusted: the result is the UTF-8 bytes of `text`, each percent-encoded
/// unless it is a letter, a digit or one of `-`, `.`, `_`, `~`, with
/// upper-case hexadecimal digits.
#[verifier::external_body]
fn percent_encode(text: &str) -> (encoded: String)
    ensures
        encoded@ == percent_encoded(text.spec_bytes()),
{
    urlencoding::encode(text).into_owned()
}

/// Calls `urlencoding::decode`.
///
/// Trusted: the result depends on the text alone, and a text without `%`
/// decodes to itself.
#[verifier::external_body]
fn percent_decode(text: &str) -> (decoded: Option<String>)
    ensures
        match decoded {
            Some(plain) => percent_decoded(text@) == Some(plain@) && (!has_escape(text@)
                ==> plain@ == text@),
            None => percent_decoded(text@) is None && has_escape(text@),
        },
{
    match urlencoding::decode(text) {
        Ok(plain) => Some(plain.into_owned()),
        Err(_) => None,
    }
}

/// The address that starts a sign-in for the application `client_id`. The
/// callback address and the scope are percent-encoded; the client identifier
/// is taken as it is.
pub open spec fn spec_oauth_url(client_id: Seq<char>) -> Seq<char> {
    "https://accounts.google.com/o/oauth2/v2/auth?client_id="@ + client_id + "&redirect_uri="@
        + percent_encoded(REDIRECT_URI.spec_bytes()) + "&response_type=token&scope="@
        + percent_encoded(SCOPE.spec_bytes()) + "&prompt=select_account"@
}

/// Builds the address that starts a sign-in for the application `client_id`.
pub fn build_oauth_url(client_id: &str) -> (url: String)
    ensures
        url@ == spec_oauth_url(client_id@),
{
    let redirect_uri = percent_encode(REDIRECT_URI);
    let scope = percent_encode(SCOPE);
    let mut url = String::from_str("https://accounts.google.com/o/oauth2/v2/auth?client_id=");
    url.append(client_id);
    url.append("&redirect_uri=");
    url.append(redirect_uri.as_str());
    url.append("&response_type=token&scope=");
    url.append(scope.as_str());
    url.append("&prompt=select_account");
    url
}

/// Where `mark` first stands in `text`, or the length of `text` if it does
/// not occur.
pub open spec fn index_of(text: Seq<char>, mark: char) -> int
    decreases text.len(),
{
    if text.len() == 0 {
        0
    } else if text[0] == mark {
        0
    } else {
        1 + index_of(text.drop_first(), mark)
    }
}

/// The part of `text` before the first `mark`; all of it if there is none.
pub open spec fn before(text: Seq<char>, mark: char) -> Seq<char> {
    text.take(index_of(text, mark))
}

/// The part of `text` behind the first `mark`, if there is one.
pub open spec fn behind(text: Seq<char>, mark: char) -> Option<Seq<char>> {
    if index_of(text, mark) < text.len() {
        Some(text.skip(index_of(text, mark) + 1))
    } else {
        None
    }
}

/// Whether a parameter of this name carries the token. The part behind `?`
/// may name it `token`, `id_token`, `access_token` or `code`; the part behind
/// `#` only `id_token` or `access_token`.
pub open spec fn names_token(name: Seq<char>, in_query: bool) -> bool {
    name == "id_token"@ || name == "access_token"@ || (in_query && (name == "token"@ || name
        == "code"@))
}

/// The value of the first parameter of `parameters` that carries the token.
/// Parameters are separated by `&`; name and value by the first `=`.
pub open spec fn token_value(parameters: Seq<char>, in_query: bool) -> Option<Seq<char>>
    decreases parameters.len(),
{
    let parameter = before(parameters, '&');
    let end = index_of(parameters, '&');
    if behind(parameter, '=') is Some && names_token(before(parameter, '='), in_query) {
        behind(parameter, '=')
    } else if 0 <= end < parameters.len() {
        token_value(parameters.skip(end + 1), in_query)
    } else {
        None
    }
}

/// The parameters behind the first `?` of an address: what stands between
/// it and the next `?` or `#`.
pub open spec fn query_of(url: Seq<char>) -> Option<Seq<char>> {
    match behind(url, '?') {
        Some(rest) => Some(before(before(rest, '?'), '#')),
        None => None,
    }
}

/// The parameters behind the first `#` of an address: what stands between
/// it and the next `#`.
pub open spec fn fragment_of(url: Seq<char>) -> Option<Seq<char>> {
    match behind(url, '#') {
        Some(rest) => Some(before(rest, '#')),
        None => None,
    }
}

/// The value of the parameter that carries the token, as it stands in the
/// address: the first such parameter of the query if it has one, of the
/// fragment otherwise.
pub open spec fn raw_token(url: Seq<char>) -> Option<Seq<char>> {
    let in_query = match query_of(url) {
        Some(query) => token_value(query, true),
        None => None,
    };
    if in_query is Some {
        in_query
    } else {
        match fragment_of(url) {
            Some(fragment) => token_value(fragment, false),
            None => None,
        }
    }
}

/// The token that an address carries: the value of its token parameter,
/// percent-decoded; the empty text where the value does not decode.
pub open spec fn spec_token(url: Seq<char>) -> Option<Seq<char>> {
    match raw_token(url) {
        Some(value) => match percent_decoded(value) {
            Some(token) => Some(token),
            None => Some(Seq::empty()),
        },
        None => None,
    }
}

/// Where the first `mark` stands: no `mark` stands before that position, and
/// one stands at it unless it is the end of the text.
pub proof fn lemma_index_of_first(text: Seq<char>, mark: char)
    ensures
        0 <= index_of(text, mark) <= text.len(),
        index_of(text, mark) < text.len() ==> text[index_of(text, mark)] == mark,
        forall|k: int| 0 <= k < index_of(text, mark) ==> text[k] != mark,
        index_of(text, mark) < text.len() <==> text.contains(mark),
    decreases text.len(),
{
    if text.len() > 0 && text[0] != mark {
        let rest = text.drop_first();
        lemma_index_of_first(rest, mark);
        assert forall|k: int| 0 <= k < index_of(text, mark) implies text[k] != mark by {
            if k > 0 {
                assert(text[k] == rest[k - 1]);
            }
        }
        if text.contains(mark) {
            let k = choose|k: int| 0 <= k < text.len() && text[k] == mark;
            assert(rest[k - 1] == mark);
        }
        if rest.contains(mark) {
            let k = choose|k: int| 0 <= k < rest.len() && rest[k] == mark;
            assert(text[k + 1] == mark);
        }
    } else if text.len() > 0 {
        assert(text[0] == mark);
    }
}

/// A position before which no `mark` stands, and at which one stands unless
/// it is the end of the text, is where the first `mark` stands.
proof fn lemma_index_of_is(text: Seq<char>, mark: char, position: int)
    requires
        0 <= position <= text.len(),
        forall|k: int| 0 <= k < position ==> text[k] != mark,
        position == text.len() || text[position] == mark,
    ensures
        index_of(text, mark) == position,
    decreases position,
{
    if position > 0 {
        let rest = text.drop_first();
        assert forall|k: int| 0 <= k < position - 1 implies rest[k] != mark by {
            assert(rest[k] == text[k + 1]);
        }
        lemma_index_of_is(rest, mark, position - 1);
    }
}

/// The characters of a text.
fn characters(text: &str) -> (chars: Vec<char>)
    ensures
        chars@ == text@,
{
    let length = text.unicode_len();
    let mut chars: Vec<char> = Vec::new();
    let mut i: usize = 0;
    while i < length
        invariant
            i <= length,
            length == text@.len(),
            chars@ == text@.take(i as int),
        decreases length - i,
    {
        chars.push(text.get_char(i));
        assert(chars@ =~= text@.take(i as int + 1));
        i = i + 1;
    }
    assert(text@.take(length as int) =~= text@);
    chars
}

/// Finds the first `mark` between two positions of a text.
fn find(chars: &Vec<char>, mark: char, from: usize, to: usize) -> (at: usize)
    requires
        from <= to <= chars.len(),
    ensures
        from <= at <= to,
        at - from == index_of(chars@.subrange(from as int, to as int), mark),
{
    let mut at: usize = from;
    while at < to && chars[at] != mark
        invariant
            from <= at <= to <= chars.len(),
            forall|k: int| from <= k < at ==> chars@[k] != mark,
        decreases to - at,
    {
        at = at + 1;
    }
    proof {
        lemma_index_of_is(chars@.subrange(from as int, to as int), mark, at - from);
    }
    at
}

/// Whether the text between two positions is `word`.
fn range_is(chars: &Vec<char>, from: usize, to: usize, word: &str) -> (same: bool)
    requires
        from <= to <= chars.len(),
    ensures
        same == (chars@.subrange(from as int, to as int) == word@),
{
    let length = word.unicode_len();
    if to - from != length {
        return false;
    }
    let mut i: usize = 0;
    while i < length
        invariant
            i <= length,
            length == word@.len(),
            to - from == length,
            from <= to <= chars.len(),
            forall|k: int| 0 <= k < i ==> chars@[from + k] == word@[k],
        decreases length - i,
    {
        if chars[from + i] != word.get_char(i) {
            assert(chars@.subrange(from as int, to as int)[i as int] != word@[i as int]);
            return false;
        }
        i = i + 1;
    }
    assert(chars@.subrange(from as int, to as int) =~= word@);
    true
}

/// Whether the name between two positions is that of a token parameter.
fn is_token_name(chars: &Vec<char>, from: usize, to: usize, in_query: bool) -> (named: bool)
    requires
        from <= to <= chars.len(),
    ensures
        named == names_token(chars@.subrange(from as int, to as int), in_query),
{
    if range_is(chars, from, to, "id_token") || range_is(chars, from, to, "access_token") {
        true
    } else if in_query {
        range_is(chars, from, to, "token") || range_is(chars, from, to, "code")
    } else {
        false
    }
}

/// Finds the value of the first token parameter between two positions.
fn find_token_value(chars: &Vec<char>, from: usize, to: usize, in_query: bool) -> (found: Option<
    (usize, usize),
>)
    requires
        from <= to <= chars.len(),
    ensures
        match found {
            Some((start, end)) => from <= start <= end <= to && token_value(
                chars@.subrange(from as int, to as int),
                in_query,
            ) == Some(chars@.subrange(start as int, end as int)),
            None => token_value(chars@.subrange(from as int, to as int), in_query) is None,
        },
{
    let ghost all = chars@.subrange(from as int, to as int);
    let mut start: usize = from;
    loop
        invariant
            from <= start <= to <= chars.len(),
            all == chars@.subrange(from as int, to as int),
            token_value(all, in_query) == token_value(
                chars@.subrange(start as int, to as int),
                in_query,
            ),
        decreases to - start,
    {
        let end = find(chars, '&', start, to);
        let equals = find(chars, '=', start, end);
        let ghost rest = chars@.subrange(start as int, to as int);
        let ghost parameter = chars@.subrange(start as int, end as int);
        proof {
            assert(before(rest, '&') =~= parameter);
            assert(before(parameter, '=') =~= chars@.subrange(start as int, equals as int));
            if equals < end {
                assert(parameter.skip(equals - start + 1) =~= chars@.subrange(
                    equals as int + 1,
                    end as int,
                ));
            }
            if end < to {
                assert(rest.skip(end - start + 1) =~= chars@.subrange(end as int + 1, to as int));
            }
        }
        if equals < end && is_token_name(chars, start, equals, in_query) {
            return Some((equals + 1, end));
        }
        if end == to {
            return None;
        }
        start = end + 1;
    }
}

/// Extracts the token from a callback address.
///
/// The token is the value of the first parameter behind `?` that is named
/// `token`, `id_token`, `access_token` or `code`; failing that, of the first
/// parameter behind `#` that is named `id_token` or `access_token`. The value
/// is percent-decoded; a value that does not decode gives the empty token,
/// and a value without `%` is the token as it stands.
pub fn extract_token_from_url(url: &str) -> (token: Option<String>)
    ensures
        match token {
            Some(text) => spec_token(url@) == Some(text@),
            None => spec_token(url@) is None,
        },
        token is Some <==> raw_token(url@) is Some,
        raw_token(url@) is Some && !has_escape(raw_token(url@).unwrap()) ==> token is Some
            && token.unwrap()@ == raw_token(url@).unwrap(),
{
    let chars = characters(url);
    let length = chars.len();
    let ghost whole = chars@;
    assert(whole.subrange(0, length as int) =~= whole);
    let question = find(&chars, '?', 0, length);
    let mut found: Option<(usize, usize)> = None;
    if question < length {
        let next = find(&chars, '?', question + 1, length);
        let end = find(&chars, '#', question + 1, next);
        proof {
            let rest = whole.skip(question as int + 1);
            assert(rest =~= whole.subrange(question as int + 1, length as int));
            assert(before(rest, '?') =~= whole.subrange(question as int + 1, next as int));
            assert(before(before(rest, '?'), '#') =~= whole.subrange(
                question as int + 1,
                end as int,
            ));
        }
        found = find_token_value(&chars, question + 1, end, true);
    }
    if found.is_none() {
        let hash = find(&chars, '#', 0, length);
        if hash < length {
            let end = find(&chars, '#', hash + 1, length);
            proof {
                let rest = whole.skip(hash as int + 1);
                assert(rest =~= whole.subrange(hash as int + 1, length as int));
                assert(before(rest, '#') =~= whole.subrange(hash as int + 1, end as int));
            }
            found = find_token_value(&chars, hash + 1, end, false);
        }
    }
    match found {
        Some((start, end)) => {
            assert(raw_token(url@) == Some(whole.subrange(start as int, end as int)));
            match percent_decode(url.substring_char(start, end)) {
                Some(token) => Some(token),
                None => Some(String::new()),
            }
        },
        None => None,
    }
}

/// What to do with a request on the callback address.
pub enum CallbackAction {
    /// Answer with the page that reads the token from the address bar and
    /// calls back with it; go on waiting.
    ServePage,
    /// The request carries the token: the sign-in succeeded.
    Accept(String),
    /// The request should carry a token and does not: the sign-in failed.
    Reject,
    /// The request is none of the sign-in; go on waiting.
    Ignore,
}

/// An action as contracts speak of it.
pub enum CallbackView {
    ServePage,
    Accept(Seq<char>),
    Reject,
    Ignore,
}

impl View for CallbackAction {
    type V = CallbackView;

    open spec fn view(&self) -> CallbackView {
        match self {
            CallbackAction::ServePage => CallbackView::ServePage,
            CallbackAction::Accept(token) => CallbackView::Accept(token@),
            CallbackAction::Reject => CallbackView::Reject,
            CallbackAction::Ignore => CallbackView::Ignore,
        }
    }
}

/// What a request for `url` calls for: the bare root is the first call of
/// the sign-in, an address with parameters the second, which must carry the
/// token; anything else is not looked at.
pub open spec fn spec_callback(url: Seq<char>) -> CallbackView {
    if url == "/"@ {
        CallbackView::ServePage
    } else if url.contains('?') {
        match spec_token(url) {
            Some(token) => CallbackView::Accept(token),
            None => CallbackView::Reject,
        }
    } else {
        CallbackView::Ignore
    }
}

/// Decides what to do with a request for `url` on the callback address.
pub fn answer_callback(url: &str) -> (action: CallbackAction)
    ensures
        action@ == spec_callback(url@),
        url@ != "/"@ && url@.contains('?') && raw_token(url@) is Some && !has_escape(
            raw_token(url@).unwrap(),
        ) ==> action@ == CallbackView::Accept(raw_token(url@).unwrap()),
{
    let chars = characters(url);
    let length = chars.len();
    assert(chars@.subrange(0, length as int) =~= chars@);
    proof {
        lemma_index_of_first(chars@, '?');
    }
    if range_is(&chars, 0, length, "/") {
        CallbackAction::ServePage
    } else if find(&chars, '?', 0, length) < length {
        match extract_token_from_url(url) {
            Some(token) => CallbackAction::Accept(token),
            None => CallbackAction::Reject,
        }
    } else {
        CallbackAction::Ignore
    }
}

} // verus!
