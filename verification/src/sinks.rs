//! Plain writable sinks: an in-memory buffer, whose contents are fully
//! specified, and the two standard streams, reached through trusted
//! wrappers.

use std::io::Write;

use vstd::prelude::*;

verus! {

/// Why an emit failed.
#[derive(Clone, Copy, PartialEq, Eq, Structural, Debug)]
pub enum LogError {
    /// A write or flush on the underlying sink failed.
    Io,
    /// The configured time format could not produce a time text.
    TimeFormat,
}

/// Relies on `std::io::stdout`: writes the text to standard output; a
/// failure is an I/O failure.
#[verifier::external_body]
fn write_stdout(text: &str) -> (r: Result<(), LogError>)
    ensures
        matches!(r, Ok(()) | Err(LogError::Io)),
{
    write!(std::io::stdout(), "{}", text).map_err(|_| LogError::Io)
}

/// Relies on `std::io::stderr`: writes the text to standard error; a
/// failure is an I/O failure.
#[verifier::external_body]
fn write_stderr(text: &str) -> (r: Result<(), LogError>)
    ensures
        matches!(r, Ok(()) | Err(LogError::Io)),
{
    write!(std::io::stderr(), "{}", text).map_err(|_| LogError::Io)
}

/// Relies on `std::io::stdout`: flushes standard output; a failure is an
/// I/O failure.
#[verifier::external_body]
fn flush_stdout() -> (r: Result<(), LogError>)
    ensures
        matches!(r, Ok(()) | Err(LogError::Io)),
{
    std::io::stdout().flush().map_err(|_| LogError::Io)
}

/// Relies on `std::io::stderr`: flushes standard error; a failure is an
/// I/O failure.
#[verifier::external_body]
fn flush_stderr() -> (r: Result<(), LogError>)
    ensures
        matches!(r, Ok(()) | Err(LogError::Io)),
{
    std::io::stderr().flush().map_err(|_| LogError::Io)
}

/// A plain writable destination: an in-memory buffer or a standard stream.
pub enum WriteSink {
    /// An in-memory buffer that accumulates everything written.
    Buffer(String),
    /// Standard output.
    Stdout,
    /// Standard error.
    Stderr,
}

/// The mathematical value of a [`WriteSink`]: a buffer is its contents,
/// a stream only its identity.
#[verifier::ext_equal]
pub enum WriteSinkV {
    Buffer(Seq<char>),
    Stdout,
    Stderr,
}

impl View for WriteSink {
    type V = WriteSinkV;

    open spec fn view(&self) -> WriteSinkV {
        match self {
            WriteSink::Buffer(s) => WriteSinkV::Buffer(s@),
            WriteSink::Stdout => WriteSinkV::Stdout,
            WriteSink::Stderr => WriteSinkV::Stderr,
        }
    }
}

/// What a sink's value becomes when `text` is written to it: a buffer
/// grows by exactly the text, a stream's value is unchanged.
pub open spec fn sink_after_write(s: WriteSinkV, text: Seq<char>) -> WriteSinkV {
    match s {
        WriteSinkV::Buffer(b) => WriteSinkV::Buffer(b + text),
        WriteSinkV::Stdout => WriteSinkV::Stdout,
        WriteSinkV::Stderr => WriteSinkV::Stderr,
    }
}

/// Write `text` to the sink; a buffer write cannot fail, and on a failed
/// stream write the sink's value is unchanged.
pub fn sink_write(sink: &mut WriteSink, text: &str) -> (r: Result<(), LogError>)
    ensures
        r is Ok ==> final(sink)@ == sink_after_write(old(sink)@, text@),
        r is Err ==> final(sink)@ == old(sink)@ && !(old(sink)@ is Buffer) && r == Err::<
            (),
            LogError,
        >(LogError::Io),
{
    match sink {
        WriteSink::Buffer(s) => {
            s.append(text);
            proof {
                assert(sink@ =~= sink_after_write(old(sink)@, text@));
            }
            Ok(())
        },
        WriteSink::Stdout => write_stdout(text),
        WriteSink::Stderr => write_stderr(text),
    }
}

/// Flush the sink; its value is unchanged.
pub fn sink_flush(sink: &mut WriteSink) -> (r: Result<(), LogError>)
    ensures
        final(sink)@ == old(sink)@,
        r is Err ==> r == Err::<(), LogError>(LogError::Io),
{
    match sink {
        WriteSink::Buffer(_) => Ok(()),
        WriteSink::Stdout => flush_stdout(),
        WriteSink::Stderr => flush_stderr(),
    }
}

} // verus!
