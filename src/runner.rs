use vstd::prelude::*;

verus! {

/// Why a command run produced no text.
#[derive(Debug, Clone, Copy, PartialEq, Eq, Structural)]
pub enum RunError {
    /// The executable could not be found or started.
    SpawnFailed,
    /// The standard output was not valid UTF-8.
    NotUtf8,
}

/// The Unicode `White_Space` property.
pub open spec fn is_white_space_spec(c: char) -> bool {
    let u = c as u32;
    (0x9 <= u && u <= 0xd) || u == 0x20 || u == 0x85 || u == 0xa0 || u == 0x1680
        || (0x2000 <= u && u <= 0x200a) || u == 0x2028 || u == 0x2029 || u == 0x202f
        || u == 0x205f || u == 0x3000
}

/// `s` without its leading white space.
pub open spec fn trim_start_spec(s: Seq<char>) -> Seq<char>
    decreases s.len(),
{
    if s.len() > 0 && is_white_space_spec(s[0]) {
        trim_start_spec(s.drop_first())
    } else {
        s
    }
}

/// `s` without its trailing white space.
pub open spec fn trim_end_spec(s: Seq<char>) -> Seq<char>
    decreases s.len(),
{
    if s.len() > 0 && is_white_space_spec(s.last()) {
        trim_end_spec(s.drop_last())
    } else {
        s
    }
}

/// `s` without leading and trailing white space.
pub open spec fn trimmed(s: Seq<char>) -> Seq<char> {
    trim_end_spec(trim_start_spec(s))
}

/// The text that UTF-8 decoding gives for `bytes`, or `None` where they are not
/// valid UTF-8.
pub uninterp spec fn utf8_text(bytes: Seq<u8>) -> Option<Seq<char>>;

/// Whether `c` has the Unicode `White_Space` property.
pub fn is_white_space(c: char) -> (r: bool)
    ensures
        r == is_white_space_spec(c),
{
    let u = c as u32;
    (0x9 <= u && u <= 0xd) || u == 0x20 || u == 0x85 || u == 0xa0 || u == 0x1680
        || (0x2000 <= u && u <= 0x200a) || u == 0x2028 || u == 0x2029 || u == 0x202f
        || u == 0x205f || u == 0x3000
}

proof fn lemma_trim_start_step(s: Seq<char>, i: int)
    requires
        0 <= i < s.len(),
        is_white_space_spec(s[i]),
    ensures
        trim_start_spec(s.subrange(i, s.len() as int)) == trim_start_spec(
            s.subrange(i + 1, s.len() as int),
        ),
{
    assert(s.subrange(i, s.len() as int).drop_first() =~= s.subrange(i + 1, s.len() as int));
}

proof fn lemma_trim_end_step(s: Seq<char>, i: int, j: int)
    requires
        0 <= i < j <= s.len(),
        is_white_space_spec(s[j - 1]),
    ensures
        trim_end_spec(s.subrange(i, j)) == trim_end_spec(s.subrange(i, j - 1)),
{
    assert(s.subrange(i, j).drop_last() =~= s.subrange(i, j - 1));
}

/// The text to display for decoded command output: `text` without leading and
/// trailing white space.
pub fn displayed_text(text: &str) -> (r: String)
    ensures
        r@ == trimmed(text@),
{
    let n = text.unicode_len();
    let mut i: usize = 0;
    assert(text@.subrange(0, n as int) =~= text@);
    while i < n && is_white_space(text.get_char(i))
        invariant
            n == text@.len(),
            i <= n,
            trim_start_spec(text@) == trim_start_spec(text@.subrange(i as int, n as int)),
        decreases n - i,
    {
        proof {
            lemma_trim_start_step(text@, i as int);
        }
        i = i + 1;
    }
    assert(trim_start_spec(text@) == text@.subrange(i as int, n as int)) by {
        let rest = text@.subrange(i as int, n as int);
        if i < n {
            assert(rest[0] == text@[i as int]);
        }
    }
    let mut j: usize = n;
    while j > i && is_white_space(text.get_char(j - 1))
        invariant
            n == text@.len(),
            i <= j <= n,
            trim_end_spec(text@.subrange(i as int, n as int)) == trim_end_spec(
                text@.subrange(i as int, j as int),
            ),
        decreases j,
    {
        proof {
            lemma_trim_end_step(text@, i as int, j as int);
        }
        j = j - 1;
    }
    assert(trim_end_spec(text@.subrange(i as int, j as int)) == text@.subrange(
        i as int,
        j as int,
    )) by {
        let mid = text@.subrange(i as int, j as int);
        if i < j {
            assert(mid.last() == text@[j - 1]);
        }
    }
    String::from_str(text.substring_char(i, j))
}

/// Relies on `String::from_utf8`: the bytes as text where they are valid UTF-8,
/// an error otherwise.
#[verifier::external_body]
fn decode_utf8(bytes: Vec<u8>) -> (r: Option<String>)
    ensures
        r.is_some() <==> utf8_text(bytes@).is_some(),
        r.is_some() ==> utf8_text(bytes@) == Some(r.unwrap()@),
{
    String::from_utf8(bytes).ok()
}

/// The displayed text for a command's captured standard output: its UTF-8
/// decoding without surrounding white space, or `NotUtf8`.
pub fn decode_output(stdout: Vec<u8>) -> (r: Result<String, RunError>)
    ensures
        r.is_err() <==> utf8_text(stdout@).is_none(),
        r.is_err() ==> r == Err::<String, RunError>(RunError::NotUtf8),
        r.is_ok() ==> r.unwrap()@ == trimmed(utf8_text(stdout@).unwrap()),
{
    match decode_utf8(stdout) {
        Some(text) => Ok(displayed_text(text.as_str())),
        None => Err(RunError::NotUtf8),
    }
}

/// `r` is the outcome of a run whose captured standard output is `captured`
/// (`None` where the process could not be started).
pub open spec fn is_run_outcome(captured: Option<Vec<u8>>, r: Result<String, RunError>) -> bool {
    match captured {
        None => r == Err::<String, RunError>(RunError::SpawnFailed),
        Some(b) => match utf8_text(b@) {
            None => r == Err::<String, RunError>(RunError::NotUtf8),
            Some(t) => r.is_ok() && r.unwrap()@ == trimmed(t),
        },
    }
}

/// The outcome of one command run: `captured` is the standard output, or `None`
/// where the process could not be started. The exit status plays no part.
pub fn run_outcome(captured: Option<Vec<u8>>) -> (r: Result<String, RunError>)
    ensures
        is_run_outcome(captured, r),
        captured.is_none() ==> r == Err::<String, RunError>(RunError::SpawnFailed),
        captured.is_some() ==> (r.is_err() <==> utf8_text(captured.unwrap()@).is_none()),
        captured.is_some() && r.is_err() ==> r == Err::<String, RunError>(RunError::NotUtf8),
        captured.is_some() && r.is_ok() ==> r.unwrap()@ == trimmed(
            utf8_text(captured.unwrap()@).unwrap(),
        ),
{
    match captured {
        Some(bytes) => decode_output(bytes),
        None => Err(RunError::SpawnFailed),
    }
}

} // verus!
