use vstd::prelude::*;
use vstd::utf8::{decode_utf8, valid_utf8};

verus! {

/// What running `git symbolic-ref --short HEAD` gave.
pub enum GitOutput {
    /// `git` could not be started; the text of the error.
    NotRun(String),
    /// `git` ran: whether it exited successfully, and what it wrote to standard output.
    Ran { success: bool, stdout: Vec<u8> },
}

/// The message given when the current branch cannot be determined.
pub open spec fn branch_error_text() -> Seq<char> {
    "Unable to determine git branch. Are you in a git repository?"@
}

/// The text of a string result.
pub open spec fn text_result(r: Result<String, String>) -> Result<Seq<char>, Seq<char>> {
    match r {
        Ok(s) => Ok(s@),
        Err(e) => Err(e@),
    }
}

/// A character with the Unicode `White_Space` property, which is what
/// `char::is_whitespace` tests.
pub open spec fn is_unicode_whitespace(c: char) -> bool {
    let n = c as u32;
    ||| 0x9 <= n <= 0xd
    ||| n == 0x20
    ||| n == 0x85
    ||| n == 0xa0
    ||| n == 0x1680
    ||| 0x2000 <= n <= 0x200a
    ||| n == 0x2028
    ||| n == 0x2029
    ||| n == 0x202f
    ||| n == 0x205f
    ||| n == 0x3000
}

/// The text without its leading whitespace.
pub open spec fn trim_start(s: Seq<char>) -> Seq<char>
    decreases s.len(),
{
    if s.len() > 0 && is_unicode_whitespace(s[0]) {
        trim_start(s.drop_first())
    } else {
        s
    }
}

/// The text without its trailing whitespace.
pub open spec fn trim_end(s: Seq<char>) -> Seq<char>
    decreases s.len(),
{
    if s.len() > 0 && is_unicode_whitespace(s.last()) {
        trim_end(s.drop_last())
    } else {
        s
    }
}

/// The text without leading and trailing whitespace.
pub open spec fn trimmed(s: Seq<char>) -> Seq<char> {
    trim_end(trim_start(s))
}

/// `str::trim`: the text with leading and trailing whitespace removed, where
/// whitespace is what `char::is_whitespace` accepts (the Unicode `White_Space`
/// property), as its documentation says.
#[verifier::external_body]
fn trim_text(s: &str) -> (r: &str)
    ensures
        r@ == trimmed(s@),
{
    s.trim()
}

proof fn lemma_trim_start_shape(s: Seq<char>)
    ensures
        trim_start(s).len() <= s.len(),
        trim_start(s) == s.skip(s.len() - trim_start(s).len()),
        trim_start(s).len() > 0 ==> !is_unicode_whitespace(trim_start(s)[0]),
    decreases s.len(),
{
    if s.len() > 0 && is_unicode_whitespace(s[0]) {
        lemma_trim_start_shape(s.drop_first());
        let r = trim_start(s.drop_first());
        assert(s.drop_first().skip(s.drop_first().len() - r.len()) =~= s.skip(s.len() - r.len()));
    } else {
        assert(s.skip(0) =~= s);
    }
}

proof fn lemma_trim_end_shape(s: Seq<char>)
    ensures
        trim_end(s).len() <= s.len(),
        trim_end(s) == s.take(trim_end(s).len() as int),
        trim_end(s).len() > 0 ==> !is_unicode_whitespace(trim_end(s).last()),
    decreases s.len(),
{
    if s.len() > 0 && is_unicode_whitespace(s.last()) {
        lemma_trim_end_shape(s.drop_last());
        let r = trim_end(s.drop_last());
        assert(s.drop_last().take(r.len() as int) =~= s.take(r.len() as int));
    } else {
        assert(s.take(s.len() as int) =~= s);
    }
}

/// A trimmed text is a contiguous part of the original, starts and ends with a
/// character that is not whitespace, and trimming it again changes nothing.
pub proof fn lemma_trimmed_is_trimmed(s: Seq<char>)
    ensures
        ({
            let t = trimmed(s);
            &&& t.len() > 0 ==> !is_unicode_whitespace(t[0]) && !is_unicode_whitespace(t.last())
            &&& trimmed(t) == t
            &&& exists|i: int| 0 <= i <= s.len() - t.len() && t == #[trigger] s.subrange(i, i + t.len())
        }),
{
    let u = trim_start(s);
    let t = trim_end(u);
    lemma_trim_start_shape(s);
    lemma_trim_end_shape(u);
    if t.len() > 0 {
        assert(t[0] == u[0]);
    }
    assert(trim_start(t) == t);
    assert(trim_end(t) == t);
    let i = s.len() - u.len();
    assert(t =~= s.subrange(i, i + t.len()));
}

/// `std::str::from_utf8`: the text that the bytes encode, where they are valid UTF-8.
#[verifier::external_body]
fn utf8_text(bytes: &[u8]) -> (r: Option<&str>)
    ensures
        r is Some <==> valid_utf8(bytes@),
        r matches Some(s) ==> s@ == decode_utf8(bytes@),
{
    match std::str::from_utf8(bytes) {
        Ok(s) => Some(s),
        Err(_) => None,
    }
}

/// The branch named by the trimmed output of `git`, or the error that an empty
/// output stands for.
pub fn branch_name(trimmed_output: &str) -> (r: Result<String, String>)
    ensures
        text_result(r) == if trimmed_output@.len() == 0 {
            Err(branch_error_text())
        } else {
            Ok(trimmed_output@)
        },
{
    if trimmed_output.is_empty() {
        Err("Unable to determine git branch. Are you in a git repository?".to_owned())
    } else {
        Ok(trimmed_output.to_owned())
    }
}

/// The result that a run of `git symbolic-ref --short HEAD` stands for.
pub open spec fn current_branch_result(output: GitOutput) -> Result<Seq<char>, Seq<char>> {
    match output {
        GitOutput::NotRun(e) => Err(branch_error_text() + "\n\t"@ + e@),
        GitOutput::Ran { success, stdout } => {
            if !success {
                Err(branch_error_text())
            } else if trimmed(decode_utf8(stdout@)).len() == 0 {
                Err(branch_error_text())
            } else {
                Ok(trimmed(decode_utf8(stdout@)))
            }
        },
    }
}

/// The current branch, from the output of `git symbolic-ref --short HEAD`.
pub fn get_current_branch(output: &GitOutput) -> (r: Result<String, String>)
    requires
        output matches GitOutput::Ran { success, stdout } ==> (*success ==> valid_utf8(stdout@)),
    ensures
        text_result(r) == current_branch_result(*output),
        match output {
            GitOutput::Ran { success, stdout } => {
                &&& (r is Ok <==> *success && trimmed(decode_utf8(stdout@)).len() > 0)
                &&& r matches Ok(branch) ==> branch@ == trimmed(decode_utf8(stdout@))
                &&& r matches Err(message) ==> message@ == branch_error_text()
            },
            GitOutput::NotRun(e) => r matches Err(message) && message@ == branch_error_text()
                + "\n\t"@ + e@,
        },
        r matches Ok(branch) ==> {
            &&& branch@.len() > 0
            &&& !is_unicode_whitespace(branch@[0])
            &&& !is_unicode_whitespace(branch@.last())
            &&& trimmed(branch@) == branch@
        },
{
    proof {
        if let GitOutput::Ran { success, stdout } = output {
            lemma_trimmed_is_trimmed(decode_utf8(stdout@));
        }
    }
    match output {
        GitOutput::NotRun(e) => {
            let mut message = "Unable to determine git branch. Are you in a git repository?".to_owned();
            message.append("\n\t");
            message.append(e.as_str());
            Err(message)
        },
        GitOutput::Ran { success, stdout } => {
            if !*success {
                return Err(
                    "Unable to determine git branch. Are you in a git repository?".to_owned(),
                );
            }
            match utf8_text(stdout.as_slice()) {
                Some(text) => branch_name(trim_text(text)),
                None => Err(
                    "Unable to determine git branch. Are you in a git repository?".to_owned(),
                ),
            }
        },
    }
}

/// Every failure to determine the branch is reported with the same opening
/// message, followed, where `git` could not be run, by the reason.
pub proof fn lemma_failures_share_message(output: GitOutput)
    ensures
        current_branch_result(output) matches Err(message) ==> message.take(
            branch_error_text().len() as int,
        ) == branch_error_text(),
{
    if let GitOutput::NotRun(e) = output {
        assert((branch_error_text() + "\n\t"@ + e@).take(branch_error_text().len() as int)
            =~= branch_error_text());
    } else {
        assert(branch_error_text().take(branch_error_text().len() as int) =~= branch_error_text());
    }
}

/// A successful run of `git` gives its trimmed output as the branch, whatever
/// its length, unless that is empty; a failed run gives the error message.
pub proof fn lemma_successful_run_gives_trimmed_output(success: bool, stdout: Vec<u8>)
    ensures
        success && trimmed(decode_utf8(stdout@)).len() > 0 ==> current_branch_result(
            GitOutput::Ran { success, stdout },
        ) == Ok::<Seq<char>, Seq<char>>(trimmed(decode_utf8(stdout@))),
        !success || trimmed(decode_utf8(stdout@)).len() == 0 ==> current_branch_result(
            GitOutput::Ran { success, stdout },
        ) == Err::<Seq<char>, Seq<char>>(branch_error_text()),
{
}

} // verus!
