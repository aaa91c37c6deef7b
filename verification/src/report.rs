//! The outcome report: one record per dispatched query, rendered
//! deterministically.

use vstd::prelude::*;

use crate::request::CliArgs;
use crate::runner::RpcError;
use crate::text::{dec_digits, dec_int, i64_to_dec, u64_to_dec};

verus! {

/// One query's outcome: produced exactly once, never mutated afterwards.
pub struct ReportData {
    pub success: bool,
    pub error: Option<String>,
    pub duration: u64,
    pub result: Option<String>,
}

/// What one report is about: the node queried and the arguments used.
pub struct ReportHeader {
    pub node: String,
    pub args: CliArgs,
}

/// A report: a header and the records added to it, in order.
pub struct Report {
    pub header: ReportHeader,
    pub data: Vec<ReportData>,
}

/// The error text for a failed call; never empty.
pub open spec fn spec_error_text(e: RpcError) -> Seq<char> {
    match e {
        RpcError::Transport { description } => "transport error: "@ + description@,
        RpcError::Remote { code, message } => "remote error "@ + dec_int(code as int) + ": "@
            + message@,
    }
}

/// Render the error text for a failed call.
pub fn error_text(e: &RpcError) -> (s: String)
    ensures
        s@ == spec_error_text(*e),
        s@.len() > 0,
{
    match e {
        RpcError::Transport { description } => {
            proof {
                reveal_strlit("transport error: ");
            }
            let mut s = String::from_str("transport error: ");
            s.append(description.as_str());
            s
        },
        RpcError::Remote { code, message } => {
            proof {
                reveal_strlit("remote error ");
            }
            let mut s = String::from_str("remote error ");
            let code_dec = i64_to_dec(*code);
            s.append(code_dec.as_str());
            s.append(": ");
            s.append(message.as_str());
            proof {
                assert(s@ =~= spec_error_text(*e));
            }
            s
        },
    }
}

/// Wrap one dispatch outcome into the record the report shows. Success
/// mirrors the outcome; a failure carries a nonempty error text; a
/// success carries its result summary.
pub fn record_outcome(outcome: Result<String, RpcError>, duration: u64) -> (d: ReportData)
    ensures
        d.success == (outcome is Ok),
        d.duration == duration,
        match outcome {
            Ok(v) => {
                &&& d.error is None
                &&& d.result matches Some(rv) && rv@ == v@
            },
            Err(e) => {
                &&& d.result is None
                &&& d.error matches Some(m) && m@ == spec_error_text(e) && m@.len() > 0
            },
        },
{
    match outcome {
        Ok(v) => ReportData { success: true, error: None, duration, result: Some(v) },
        Err(e) => {
            let msg = error_text(&e);
            ReportData { success: false, error: Some(msg), duration, result: None }
        },
    }
}

/// The result summary for the specialized logs branch: the count of
/// returned entries.
pub fn logs_summary(count: u64) -> (s: String)
    ensures
        s@ == dec_digits(count as nat) + " log entries"@,
{
    let mut s = u64_to_dec(count);
    s.append(" log entries");
    s
}

/// How many characters of a record's result or error the report shows.
pub const SUMMARY_LIMIT: usize = 80;

/// A summary truncated to the display limit.
pub open spec fn spec_truncate(s: Seq<char>) -> Seq<char> {
    if s.len() <= SUMMARY_LIMIT {
        s
    } else {
        s.take(SUMMARY_LIMIT as int)
    }
}

/// The body of one record line: the result summary of a success, the
/// error text of a failure.
pub open spec fn spec_record_body(d: ReportData) -> Seq<char> {
    if d.success {
        match d.result {
            Some(v) => v@,
            None => Seq::<char>::empty(),
        }
    } else {
        match d.error {
            Some(m) => m@,
            None => Seq::<char>::empty(),
        }
    }
}

/// One rendered record line.
pub open spec fn spec_render_record(d: ReportData) -> Seq<char> {
    (if d.success {
        "ok in "@
    } else {
        "failed in "@
    }) + dec_digits(d.duration as nat) + "ms: "@ + spec_truncate(spec_record_body(d)) + "\n"@
}

/// The rendered records, in the order they were added.
pub open spec fn spec_render_records(ds: Seq<ReportData>) -> Seq<char>
    decreases ds.len(),
{
    if ds.len() == 0 {
        Seq::<char>::empty()
    } else {
        spec_render_records(ds.drop_last()) + spec_render_record(ds.last())
    }
}

/// The full rendered report: a header line, then one line per record.
pub open spec fn spec_render_report(r: Report) -> Seq<char> {
    "report for node "@ + r.header.node@ + " method "@ + r.header.args.method@ + "\n"@
        + spec_render_records(r.data@)
}

/// Truncate a summary to the display limit.
fn truncate_summary(s: &str) -> (t: String)
    ensures
        t@ == spec_truncate(s@),
{
    let n = s.unicode_len();
    if n <= SUMMARY_LIMIT {
        String::from_str(s)
    } else {
        let p = s.substring_char(0, SUMMARY_LIMIT);
        proof {
            assert(s@.subrange(0, SUMMARY_LIMIT as int) =~= s@.take(SUMMARY_LIMIT as int));
        }
        String::from_str(p)
    }
}

/// Render one record line.
fn render_record(d: &ReportData) -> (s: String)
    ensures
        s@ == spec_render_record(*d),
{
    let mut s = if d.success {
        String::from_str("ok in ")
    } else {
        String::from_str("failed in ")
    };
    let dur = u64_to_dec(d.duration);
    s.append(dur.as_str());
    s.append("ms: ");
    let body = if d.success {
        match &d.result {
            Some(v) => truncate_summary(v.as_str()),
            None => String::new(),
        }
    } else {
        match &d.error {
            Some(m) => truncate_summary(m.as_str()),
            None => String::new(),
        }
    };
    s.append(body.as_str());
    s.append("\n");
    proof {
        assert(s@ =~= spec_render_record(*d));
    }
    s
}

impl Report {
    /// A fresh, empty report bound to one invocation's header.
    pub fn new(header: ReportHeader) -> (r: Report)
        ensures
            r.header == header,
            r.data@ == Seq::<ReportData>::empty(),
    {
        Report { header, data: Vec::new() }
    }

    /// Append exactly one record.
    pub fn add_data(&mut self, d: ReportData)
        ensures
            final(self).data@ == old(self).data@.push(d),
            final(self).header == old(self).header,
    {
        self.data.push(d);
    }

    /// Render the report: the header line, then each record on its own
    /// line. The text is a pure function of the report's value.
    pub fn display(&self) -> (out: String)
        ensures
            out@ == spec_render_report(*self),
    {
        let mut out = String::from_str("report for node ");
        out.append(self.header.node.as_str());
        out.append(" method ");
        out.append(self.header.args.method.as_str());
        out.append("\n");
        proof {
            assert(out@ =~= "report for node "@ + self.header.node@ + " method "@
                + self.header.args.method@ + "\n"@);
        }
        let ghost prefix = out@;
        let mut i: usize = 0;
        while i < self.data.len()
            invariant
                i <= self.data@.len(),
                prefix == "report for node "@ + self.header.node@ + " method "@
                    + self.header.args.method@ + "\n"@,
                out@ == prefix + spec_render_records(self.data@.take(i as int)),
            decreases self.data@.len() - i,
        {
            let line = render_record(&self.data[i]);
            out.append(line.as_str());
            proof {
                assert(self.data@.take(i + 1 as int).drop_last() =~= self.data@.take(i as int));
                assert(self.data@.take(i + 1 as int).last() == self.data@[i as int]);
                assert((prefix + spec_render_records(self.data@.take(i as int)))
                    + spec_render_record(self.data@[i as int]) =~= prefix + spec_render_records(
                    self.data@.take(i + 1 as int),
                ));
            }
            i += 1;
        }
        proof {
            assert(self.data@.take(self.data@.len() as int) =~= self.data@);
        }
        out
    }
}

/// Law: rendering is deterministic. `display` ensures its output is
/// `spec_render_report` of the report's value, so any two renderings of
/// one report are the same text, byte for byte.
pub proof fn lemma_display_deterministic(r: Report, out1: Seq<char>, out2: Seq<char>)
    requires
        out1 == spec_render_report(r),
        out2 == spec_render_report(r),
    ensures
        out1 == out2,
{
}

} // verus!
