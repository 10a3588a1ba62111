use vstd::prelude::*;

verus! {

/// A streamed reply of the generative language endpoint.
pub struct PartialGapiResponse {
    pub data: PartialGapiResponseData,
}

/// The payload of a streamed reply: its candidate answers.
pub struct PartialGapiResponseData {
    pub candidates: Vec<Candidate>,
}

/// The content of a candidate answer: its parts and the role that wrote it.
pub struct GapiContent {
    pub parts: Vec<GapiPart>,
    pub role: String,
}

/// One candidate answer and its position among them.
pub struct Candidate {
    pub content: GapiContent,
    pub index: u32,
}

/// A request to the generative language endpoint.
#[derive(Debug, PartialEq, Eq)]
pub struct GapiReqBody {
    pub contents: Vec<GapiReqParts>,
}

/// The parts of one turn of a request.
#[derive(Debug, PartialEq, Eq)]
pub struct GapiReqParts {
    pub parts: Vec<GapiPart>,
}

/// A piece of text of a request or a reply.
#[derive(Debug, PartialEq, Eq)]
pub struct GapiPart {
    pub text: String,
}

/// The request that asks the model to answer `msg`: one turn of one part
/// that holds it.
pub fn request_body(msg: String) -> (r: GapiReqBody)
    ensures
        r.contents@.len() == 1,
        r.contents@[0].parts@.len() == 1,
        r.contents@[0].parts@[0].text == msg,
{
    let mut parts: Vec<GapiPart> = Vec::new();
    parts.push(GapiPart { text: msg });
    let mut contents: Vec<GapiReqParts> = Vec::new();
    contents.push(GapiReqParts { parts });
    GapiReqBody { contents }
}

/// Whether a character is white space: the characters that Unicode gives the
/// `White_Space` property.
pub open spec fn is_white_space(c: char) -> bool {
    let n = c as u32;
    (0x9 <= n <= 0xd) || n == 0x20 || n == 0x85 || n == 0xa0 || n == 0x1680 || (0x2000 <= n
        <= 0x200a) || n == 0x2028 || n == 0x2029 || n == 0x202f || n == 0x205f || n == 0x3000
}

/// Whether a character is white space.
pub fn white_space(c: char) -> (r: bool)
    ensures
        r == is_white_space(c),
{
    let n = c as u32;
    (0x9 <= n && n <= 0xd) || n == 0x20 || n == 0x85 || n == 0xa0 || n == 0x1680 || (0x2000 <= n
        && n <= 0x200a) || n == 0x2028 || n == 0x2029 || n == 0x202f || n == 0x205f || n == 0x3000
}

/// The text without its leading white space.
pub open spec fn trim_start(s: Seq<char>) -> Seq<char>
    decreases s.len(),
{
    if s.len() > 0 && is_white_space(s[0]) {
        trim_start(s.drop_first())
    } else {
        s
    }
}

/// The text without its trailing white space.
pub open spec fn trim_end(s: Seq<char>) -> Seq<char>
    decreases s.len(),
{
    if s.len() > 0 && is_white_space(s.last()) {
        trim_end(s.drop_last())
    } else {
        s
    }
}

/// The text without its leading and trailing white space.
pub open spec fn trim(s: Seq<char>) -> Seq<char> {
    trim_end(trim_start(s))
}

/// The key held in the text of a key file: the text without its leading and
/// trailing white space.
pub fn api_key_from(contents: &str) -> (r: String)
    ensures
        r@ == trim(contents@),
{
    let n = contents.unicode_len();
    let mut i: usize = 0;
    assert(contents@.subrange(0, n as int) =~= contents@);
    while i < n && white_space(contents.get_char(i))
        invariant
            i <= n,
            n == contents@.len(),
            trim_start(contents@) == trim_start(contents@.subrange(i as int, n as int)),
        decreases n - i,
    {
        assert(contents@.subrange(i as int, n as int).drop_first() =~= contents@.subrange(
            i + 1,
            n as int,
        ));
        i = i + 1;
    }
    if i == n {
        assert(contents@.subrange(i as int, n as int) =~= Seq::<char>::empty());
    }
    assert(trim_start(contents@) == contents@.subrange(i as int, n as int));
    let mut j: usize = n;
    while j > i && white_space(contents.get_char(j - 1))
        invariant
            i <= j <= n,
            n == contents@.len(),
            trim_end(contents@.subrange(i as int, n as int)) == trim_end(
                contents@.subrange(i as int, j as int),
            ),
        decreases j - i,
    {
        assert(contents@.subrange(i as int, j as int).drop_last() =~= contents@.subrange(
            i as int,
            j - 1,
        ));
        j = j - 1;
    }
    if j == i {
        assert(contents@.subrange(i as int, j as int) =~= Seq::<char>::empty());
    }
    assert(trim(contents@) == contents@.subrange(i as int, j as int));
    contents.substring_char(i, j).to_owned()
}

proof fn lemma_trim_start_slice(s: Seq<char>) -> (i: int)
    ensures
        0 <= i <= s.len(),
        trim_start(s) == s.subrange(i, s.len() as int),
        forall|k: int| 0 <= k < i ==> is_white_space(#[trigger] s[k]),
        trim_start(s).len() > 0 ==> !is_white_space(trim_start(s)[0]),
    decreases s.len(),
{
    if s.len() > 0 && is_white_space(s[0]) {
        let t = s.drop_first();
        let i1 = lemma_trim_start_slice(t);
        assert(t.subrange(i1, t.len() as int) =~= s.subrange(i1 + 1, s.len() as int));
        assert forall|k: int| 0 <= k < i1 + 1 implies is_white_space(#[trigger] s[k]) by {
            if k > 0 {
                assert(s[k] == t[k - 1]);
            }
        }
        i1 + 1
    } else {
        assert(s.subrange(0, s.len() as int) =~= s);
        0
    }
}

proof fn lemma_trim_end_slice(s: Seq<char>) -> (j: int)
    ensures
        0 <= j <= s.len(),
        trim_end(s) == s.subrange(0, j),
        forall|k: int| j <= k < s.len() ==> is_white_space(#[trigger] s[k]),
        trim_end(s).len() > 0 ==> !is_white_space(trim_end(s).last()),
    decreases s.len(),
{
    if s.len() > 0 && is_white_space(s.last()) {
        let t = s.drop_last();
        let j1 = lemma_trim_end_slice(t);
        assert(t.subrange(0, j1) =~= s.subrange(0, j1));
        assert forall|k: int| j1 <= k < s.len() implies is_white_space(#[trigger] s[k]) by {
            if k < s.len() - 1 {
                assert(s[k] == t[k]);
            }
        }
        j1
    } else {
        assert(s.subrange(0, s.len() as int) =~= s);
        s.len() as int
    }
}

/// The key is the text without its surrounding white space, for every text:
/// it is one stretch `s[i..j]` of the text, everything before `i` and from
/// `j` on is white space, and the key neither starts nor ends with white
/// space.
pub proof fn lemma_trim_is_the_text_without_surrounding_white_space(s: Seq<char>)
    ensures
        exists|i: int, j: int|
            {
                &&& 0 <= i <= j <= s.len()
                &&& trim(s) == s.subrange(i, j)
                &&& (forall|k: int| 0 <= k < i ==> is_white_space(#[trigger] s[k]))
                &&& (forall|k: int| j <= k < s.len() ==> is_white_space(#[trigger] s[k]))
            },
        trim(s).len() > 0 ==> !is_white_space(trim(s)[0]) && !is_white_space(trim(s).last()),
{
    let i = lemma_trim_start_slice(s);
    let t = trim_start(s);
    let j1 = lemma_trim_end_slice(t);
    let j = i + j1;
    assert(t.subrange(0, j1) =~= s.subrange(i, j));
    assert forall|k: int| j <= k < s.len() implies is_white_space(#[trigger] s[k]) by {
        assert(s[k] == t[k - i]);
    }
    if trim(s).len() > 0 {
        assert(trim(s)[0] == t[0]);
    }
    assert(0 <= i <= j <= s.len() && trim(s) == s.subrange(i, j));
}

} // verus!
