//! The trace record of one syscall: its name, its arguments as text and its
//! outcome, and the line that reports them.
//!
//! Writing the line to the trace stream and dumping the stack are left to
//! the caller; [`SysLog::flush`] says what is to be written and whether a
//! dump follows.

use crate::error::{SyscallError, SyscallOutcome};
use crate::render::{decimal_text, push_digits};
use vstd::prelude::*;

verus! {

/// The escape sequence that opens the name of a call that succeeded.
pub open spec fn success_color() -> Seq<char> {
    "\x1b[1;32m"@
}

/// The escape sequence that opens the name of a call that failed.
pub open spec fn failure_color() -> Seq<char> {
    "\x1b[1;31m"@
}

/// The texts of `args` in order, with a comma and a space between neighbours.
pub open spec fn comma_joined(args: Seq<Seq<char>>) -> Seq<char>
    decreases args.len(),
{
    if args.len() == 0 {
        Seq::empty()
    } else if args.len() == 1 {
        args[0]
    } else {
        comma_joined(args.drop_last()) + ", "@ + args.last()
    }
}

/// How an outcome reads in a trace line.
pub open spec fn outcome_text(outcome: SyscallOutcome) -> Seq<char> {
    match outcome {
        Ok(value) => "Ok("@ + decimal_text(value as nat) + ")"@,
        Err(error) => "Err("@ + error.spec_name() + ")"@,
    }
}

/// The line that reports a call: the coloured name, the arguments in
/// parentheses, and the outcome after ` = `.
pub open spec fn trace_line(
    name: Seq<char>,
    args: Seq<Seq<char>>,
    outcome: SyscallOutcome,
) -> Seq<char> {
    (if outcome is Ok {
        success_color()
    } else {
        failure_color()
    }) + name + "\x1b[0m("@ + comma_joined(args) + ") = "@ + outcome_text(outcome)
}

/// What a [`SysLog`] is in contracts.
pub struct SysLogView {
    pub name: Seq<char>,
    pub args: Seq<Seq<char>>,
    pub result: Option<SyscallOutcome>,
}

/// The record of one call. It is built with the name, takes the arguments
/// one by one, each as the text it had when it was added, then the outcome,
/// and is consumed by [`SysLog::flush`].
pub struct SysLog {
    name: &'static str,
    /// The result of the syscall.
    result: Option<SyscallOutcome>,
    /// The formatted argument values.
    args: Vec<String>,
}

/// What flushing a record asks of the caller.
pub struct Emission {
    /// The line to write to the trace stream.
    pub line: String,
    /// Whether a dump of the stack follows the line.
    pub stack_trace: bool,
}

/// Renders `value` with the standard library's `format!("{:?}", value)`,
/// that is through the value's `Debug` implementation. Nothing is claimed of
/// the text: it is whatever that implementation writes.
#[verifier::external_body]
fn debug_text<T: core::fmt::Debug>(value: &T) -> (text: String) {
    format!("{:?}", value)
}

impl View for SysLog {
    type V = SysLogView;

    closed spec fn view(&self) -> SysLogView {
        SysLogView {
            name: self.name@,
            args: Seq::new(self.args@.len(), |i: int| self.args@[i]@),
            result: self.result,
        }
    }
}

impl SysLog {
    /// A record of the call `name`, with no argument and no outcome yet.
    pub fn new(name: &'static str) -> (record: Self)
        ensures
            record@ == (SysLogView { name: name@, args: Seq::empty(), result: None }),
    {
        let record = Self { name, result: None, args: Vec::new() };
        assert(record@.args =~= Seq::empty());
        record
    }

    /// Appends an argument that is already text.
    pub fn add_rendered(self, text: String) -> (record: Self)
        ensures
            record@ == (SysLogView { args: self@.args.push(text@), ..self@ }),
    {
        let mut record = self;
        record.args.push(text);
        assert(record@.args =~= self@.args.push(text@));
        record
    }

    /// Appends `value` as its `Display` implementation renders it now.
    pub fn add_argument<T>(self, value: T) -> (record: Self) where T: core::fmt::Display
        ensures
            exists|text: String|
                #[trigger] vstd::string::to_string_from_display_ensures::<T>(&value, text)
                    && record@ == (SysLogView { args: self@.args.push(text@), ..self@ }),
    {
        let text = value.to_string();
        self.add_rendered(text)
    }

    /// Appends `value` as its `Debug` implementation renders it now. The
    /// arguments before it, the name and the outcome stay as they are.
    pub fn add_argument_dbg<T>(self, value: T) -> (record: Self) where T: core::fmt::Debug
        ensures
            exists|text: Seq<char>|
                record@ == (SysLogView { args: #[trigger] self@.args.push(text), ..self@ }),
    {
        let text = debug_text(&value);
        self.add_rendered(text)
    }

    /// Attaches the outcome. An outcome attached before is replaced.
    pub fn set_result(self, result: SyscallOutcome) -> (record: Self)
        ensures
            record@ == (SysLogView { result: Some(result), ..self@ }),
    {
        let mut record = self;
        record.result = Some(result);
        record
    }

    /// Whether an outcome is attached, which [`SysLog::flush`] requires.
    pub fn has_result(&self) -> (attached: bool)
        ensures
            attached == self@.result is Some,
    {
        self.result.is_some()
    }

    /// Ends the record: gives the line to write at trace level, and asks for
    /// a stack dump exactly when the outcome is an error.
    pub fn flush(self) -> (emission: Emission)
        requires
            self@.result is Some,
        ensures
            emission.line@ == trace_line(self@.name, self@.args, self@.result.unwrap()),
            emission.stack_trace == self@.result.unwrap() is Err,
    {
        let outcome = self.result.unwrap();
        let mut line = String::new();
        if outcome.is_ok() {
            line.append("\x1b[1;32m");
        } else {
            line.append("\x1b[1;31m");
        }
        line.append(self.name);
        line.append("\x1b[0m(");
        let ghost head = line@;
        let mut i: usize = 0;
        while i < self.args.len()
            invariant
                i <= self.args.len(),
                line@ == head + comma_joined(self@.args.take(i as int)),
            decreases self.args.len() - i,
        {
            let ghost before = line@;
            if i != 0 {
                line.append(", ");
            }
            line.append(self.args[i].as_str());
            proof {
                let shown = self@.args.take(i + 1);
                assert(shown.drop_last() =~= self@.args.take(i as int));
                assert(shown.last() == self.args@[i as int]@);
                assert(line@ =~= head + comma_joined(shown));
            }
            i += 1;
        }
        assert(self@.args.take(i as int) =~= self@.args);
        line.append(") = ");
        let ghost body = line@;
        match outcome {
            Ok(value) => {
                line.append("Ok(");
                push_digits(&mut line, value, 10);
                line.append(")");
            },
            Err(error) => {
                line.append("Err(");
                line.append(error.name());
                line.append(")");
            },
        }
        assert(line@ =~= body + outcome_text(outcome));
        assert(line@ =~= trace_line(self@.name, self@.args, outcome));
        Emission { line, stack_trace: outcome.is_err() }
    }
}

} // verus!
