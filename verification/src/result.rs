//! What a node gives back to the host.
use vstd::prelude::*;

use crate::value::Json;
use crate::value::JsonView;

verus! {

/// The result of a node's execution.
#[derive(Debug, PartialEq)]
pub struct ExecuteResult {
    /// Whether the node did its work.
    pub success: bool,
    /// What the node puts out.
    pub output_data: Option<Json>,
    /// The ports by which the flow goes on. The host follows no port that is not named here; where
    /// a node failed it goes by the node's error strategy.
    pub next_ports: Vec<String>,
    /// What went wrong.
    pub errors: Vec<String>,
}

/// What a result holds.
#[verifier::ext_equal]
pub struct ResultView {
    pub success: bool,
    pub output_data: Option<JsonView>,
    pub next_ports: Seq<Seq<char>>,
    pub errors: Seq<Seq<char>>,
}

/// What some texts hold.
pub open spec fn texts(list: Seq<String>) -> Seq<Seq<char>> {
    Seq::new(list.len(), |i: int| list[i]@)
}

impl View for ExecuteResult {
    type V = ResultView;

    open spec fn view(&self) -> ResultView {
        ResultView {
            success: self.success,
            output_data: match self.output_data {
                Some(output) => Some(output@),
                None => None,
            },
            next_ports: texts(self.next_ports@),
            errors: texts(self.errors@),
        }
    }
}

/// A success that goes on by one port.
pub open spec fn succeeded(output: JsonView, port: Seq<char>) -> ResultView {
    ResultView {
        success: true,
        output_data: Some(output),
        next_ports: seq![port],
        errors: Seq::empty(),
    }
}

/// A failure with one message.
pub open spec fn failed(message: Seq<char>) -> ResultView {
    ResultView {
        success: false,
        output_data: None,
        next_ports: Seq::empty(),
        errors: seq![message],
    }
}

impl ExecuteResult {
    /// A success that goes on by no port.
    pub fn ok(output: Json) -> (r: ExecuteResult)
        ensures
            r@ == (ResultView {
                success: true,
                output_data: Some(output@),
                next_ports: Seq::empty(),
                errors: Seq::empty(),
            }),
    {
        let r = ExecuteResult {
            success: true,
            output_data: Some(output),
            next_ports: Vec::new(),
            errors: Vec::new(),
        };
        assert(r@.next_ports =~= Seq::empty());
        assert(r@.errors =~= Seq::empty());
        r
    }

    /// A failure.
    pub fn fail(message: String) -> (r: ExecuteResult)
        ensures
            r@ == failed(message@),
    {
        let mut errors: Vec<String> = Vec::new();
        errors.push(message);
        let r = ExecuteResult {
            success: false,
            output_data: None,
            next_ports: Vec::new(),
            errors,
        };
        assert(r@.next_ports =~= Seq::empty());
        assert(r@.errors =~= seq![message@]);
        r
    }
}

/// A success that goes on by the port `port`.
fn routed(output: Json, port: &str) -> (r: ExecuteResult)
    ensures
        r@ == succeeded(output@, port@),
{
    let mut r: ExecuteResult = ExecuteResult::ok(output);
    r.next_ports.push(port.to_owned());
    assert(r@.next_ports =~= seq![port@]);
    r
}

/// The success of a node that works on the database: it goes on by the port `true`. A failure
/// names no port, and the host takes it to the port `false`.
pub fn ok_result(output: Json) -> (r: ExecuteResult)
    ensures
        r@ == succeeded(output@, "true"@),
{
    routed(output, "true")
}

/// The success of `mongo:close`, which has one port to go on by.
pub fn close_ok_result(output: Json) -> (r: ExecuteResult)
    ensures
        r@ == succeeded(output@, "out"@),
{
    routed(output, "out")
}

/// A line for the host's log.
#[derive(Debug, PartialEq)]
pub struct LogLine {
    pub level: String,
    pub message: String,
}

/// A result, and the line that goes to the host's log before it.
#[derive(Debug, PartialEq)]
pub struct Report {
    pub result: ExecuteResult,
    pub log: Option<LogLine>,
}

/// What a report holds: the result, and the level and the message of the line.
#[verifier::ext_equal]
pub struct ReportView {
    pub result: ResultView,
    pub log: Option<(Seq<char>, Seq<char>)>,
}

impl View for Report {
    type V = ReportView;

    open spec fn view(&self) -> ReportView {
        ReportView {
            result: self.result@,
            log: match self.log {
                Some(line) => Some((line.level@, line.message@)),
                None => None,
            },
        }
    }
}

/// A node's outcome by what it holds.
pub open spec fn viewed_result(r: Result<ExecuteResult, String>) -> Result<ResultView, Seq<char>> {
    match r {
        Ok(result) => Ok(result@),
        Err(err) => Err(err@),
    }
}

/// The report of a failure: the failed result, with the message in the log.
pub open spec fn failure(message: Seq<char>) -> ReportView {
    ReportView { result: failed(message), log: Some(("error"@, message)) }
}

/// The report of an outcome: a result alone, or a failure.
pub open spec fn reported(outcome: Result<ResultView, Seq<char>>) -> ReportView {
    match outcome {
        Ok(result) => ReportView { result, log: None },
        Err(message) => failure(message),
    }
}

/// The first step of a node: what the driver is asked for, or the report of what is wrong.
pub open spec fn first_step<R>(request: Result<R, Seq<char>>) -> Result<R, ReportView> {
    match request {
        Ok(request) => Ok(request),
        Err(message) => Err(failure(message)),
    }
}

/// A count or a message, by what they hold.
pub open spec fn viewed_count(answer: Result<u64, String>) -> Result<u64, Seq<char>> {
    match answer {
        Ok(count) => Ok(count),
        Err(err) => Err(err@),
    }
}

impl Report {
    /// Reports a failure.
    pub fn failure(message: String) -> (r: Report)
        ensures
            r@ == failure(message@),
    {
        let log = Some(LogLine { level: "error".to_owned(), message: message.clone() });
        Report { result: ExecuteResult::fail(message), log }
    }

    /// Reports an outcome: a success as it is, a failure with its message in the log.
    pub fn of(outcome: Result<ExecuteResult, String>) -> (r: Report)
        ensures
            r@ == reported(viewed_result(outcome)),
    {
        match outcome {
            Ok(result) => Report { result, log: None },
            Err(message) => Report::failure(message),
        }
    }
}

} // verus!
