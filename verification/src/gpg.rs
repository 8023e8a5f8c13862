//! The contract with the `gpg` program: what to run, and how to read what
//! came back. Nothing here starts a process; the caller runs the
//! [`Invocation`] and hands the [`Exit`] to [`collect`].

use vstd::prelude::*;

verus! {

/// `std::io::Error`, carried through unread.
#[verifier::external_type_specification]
#[verifier::external_body]
pub struct ExIoError(std::io::Error);

/// Why a run of `gpg` gave no text.
#[derive(Debug)]
pub enum Error {
    /// The process could not be started, or its pipes failed.
    Io(std::io::Error),
    /// The process exited with a code other than zero; its standard error
    /// is kept for diagnosis.
    ExitCode(i32, String),
    /// The process was ended by a signal and left no exit code.
    SignalTerminated,
}

/// An [`Error`] with its message as a text.
pub ghost enum ErrorView {
    Io(std::io::Error),
    ExitCode(i32, Seq<char>),
    SignalTerminated,
}

impl View for Error {
    type V = ErrorView;

    open spec fn view(&self) -> ErrorView {
        match self {
            Error::Io(e) => ErrorView::Io(*e),
            Error::ExitCode(code, message) => ErrorView::ExitCode(*code, message@),
            Error::SignalTerminated => ErrorView::SignalTerminated,
        }
    }
}

/// What a run gave, with texts in place of strings.
pub open spec fn outcome(out: Result<String, Error>) -> Result<Seq<char>, ErrorView> {
    match out {
        Ok(text) => Ok(text@),
        Err(e) => Err(e@),
    }
}

/// One run of `gpg`: the program, its arguments in order, and the text to
/// write to its standard input before closing it.
#[derive(Debug)]
pub struct Invocation {
    pub program: &'static str,
    pub args: Vec<&'static str>,
    pub input: String,
}

/// What a finished process left behind. `code` is `None` where a signal
/// ended it.
#[derive(Debug)]
pub struct Exit {
    pub code: Option<i32>,
    pub stdout: Vec<u8>,
    pub stderr: Vec<u8>,
}

impl Invocation {
    /// The arguments as texts.
    pub open spec fn argv(&self) -> Seq<Seq<char>> {
        self.args@.map_values(|arg: &'static str| arg@)
    }

    /// This run starts `gpg` with `flags` and feeds it `input`.
    pub open spec fn runs(&self, flags: Seq<Seq<char>>, input: Seq<char>) -> bool {
        &&& self.program@ == "gpg"@
        &&& self.argv() == flags
        &&& self.input@ == input
    }
}

/// The arguments that make `gpg` sign and encrypt to the default key.
pub open spec fn encrypt_flags() -> Seq<Seq<char>> {
    seq![
        "--no-tty"@,
        "--batch"@,
        "--default-recipient-self"@,
        "--armor"@,
        "--sign"@,
        "--encrypt"@,
    ]
}

/// The arguments that make `gpg` decrypt.
pub open spec fn decrypt_flags() -> Seq<Seq<char>> {
    seq!["--no-tty"@, "--batch"@, "--decrypt"@]
}

/// The run that turns `text` into an armored, signed message for the
/// default recipient.
pub fn encrypt(text: &str) -> (run: Invocation)
    ensures
        run.runs(encrypt_flags(), text@),
{
    let mut args: Vec<&'static str> = Vec::new();
    args.push("--no-tty");
    args.push("--batch");
    args.push("--default-recipient-self");
    args.push("--armor");
    args.push("--sign");
    args.push("--encrypt");
    let run = Invocation { program: "gpg", args, input: text.to_owned() };
    assert(run.argv() =~= encrypt_flags());
    run
}

/// The run that turns the armored message `text` back into what was
/// encrypted.
pub fn decrypt(text: &str) -> (run: Invocation)
    ensures
        run.runs(decrypt_flags(), text@),
{
    let mut args: Vec<&'static str> = Vec::new();
    args.push("--no-tty");
    args.push("--batch");
    args.push("--decrypt");
    let run = Invocation { program: "gpg", args, input: text.to_owned() };
    assert(run.argv() =~= decrypt_flags());
    run
}

/// The text that `String::from_utf8_lossy` gives for a sequence of bytes.
pub uninterp spec fn utf8_lossy(bytes: Seq<u8>) -> Seq<char>;

/// `String::from_utf8_lossy`: decodes bytes as UTF-8, putting U+FFFD in
/// place of what is not valid. The text is a function of the bytes alone,
/// and that is all that is claimed of it.
#[verifier::external_body]
fn from_utf8_lossy(bytes: &Vec<u8>) -> (text: String)
    ensures
        text@ == utf8_lossy(bytes@),
{
    String::from_utf8_lossy(bytes).into_owned()
}

/// What [`collect`] makes of a run.
pub open spec fn collected(ran: Result<Exit, std::io::Error>) -> Result<Seq<char>, ErrorView> {
    match ran {
        Err(e) => Err(ErrorView::Io(e)),
        Ok(exit) => match exit.code {
            Some(code) => if code == 0 {
                Ok(utf8_lossy(exit.stdout@))
            } else {
                Err(ErrorView::ExitCode(code, utf8_lossy(exit.stderr@)))
            },
            None => Err(ErrorView::SignalTerminated),
        },
    }
}

/// Reads the outcome of a run: the standard output as text on exit code
/// zero; otherwise the I/O failure, the exit code with the standard error
/// as text, or the fact that a signal ended the process.
pub fn collect(ran: Result<Exit, std::io::Error>) -> (out: Result<String, Error>)
    ensures
        outcome(out) == collected(ran),
{
    match ran {
        Err(e) => Err(Error::Io(e)),
        Ok(exit) => match exit.code {
            Some(0) => Ok(from_utf8_lossy(&exit.stdout)),
            Some(code) => Err(Error::ExitCode(code, from_utf8_lossy(&exit.stderr))),
            None => Err(Error::SignalTerminated),
        },
    }
}

} // verus!
