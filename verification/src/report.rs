//! The tests of the suite, what each of them finds out, and how that is worded.
//!
//! Times and rates are measured outside and handed in as the text of a number.

use vstd::prelude::*;
use vstd::string::*;
use crate::decimal;
use crate::decimal::{decimal, signed_decimal};
use crate::endpoint::Protocol;
use crate::payload::{
    StreamResponse, BIDI_CHUNKS, LARGE_SIZE, MANY_COUNT, SMALL_SIZE, STREAM_CHUNKS,
    STREAM_CHUNK_SIZE,
};
use crate::tally::Tally;
use crate::text;
use crate::text::{align_left, align_right, join3, repeat};

verus! {

/// The tests of the suite.
#[derive(Clone, Copy, Debug, PartialEq, Eq, Structural)]
pub enum TestKind {
    SmallPayload,
    LargePayload,
    ServerStream,
    ClientStream,
    BidiStream,
    ManyRequests,
}

/// What a test found out, besides how long it took.
pub enum Outcome {
    /// Bytes that came back.
    SmallPayload { received: usize },
    /// Bytes that came back.
    LargePayload { received: usize },
    /// Chunks and bytes that came.
    ServerStream { counted: Tally },
    /// What the server says in words.
    ClientStream { reply: String },
    /// What the server says in numbers.
    ClientStreamCounted { response: StreamResponse },
    /// Chunks and bytes that came back.
    BidiStream { counted: Tally },
    /// Every request was answered.
    ManyRequests,
}

/// What was measured: the time in milliseconds, and the rate in megabytes or
/// requests per second, each as the text of a number.
pub struct Figures {
    pub latency_ms: String,
    pub rate: String,
}

/// A line of the summary.
pub struct TestResult {
    pub name: String,
    pub latency_ms: String,
    /// Megabytes per second, where the test moves enough to tell.
    pub throughput_mbs: Option<String>,
    pub details: String,
}

/// The sequence in which the tests run.
pub open spec fn suite_order() -> Seq<TestKind> {
    seq![
        TestKind::SmallPayload,
        TestKind::LargePayload,
        TestKind::ServerStream,
        TestKind::ClientStream,
        TestKind::BidiStream,
        TestKind::ManyRequests,
    ]
}

/// How many steps the progress of a test has. The two single exchanges show none.
pub open spec fn progress_steps(kind: TestKind) -> Option<nat> {
    match kind {
        TestKind::SmallPayload => None,
        TestKind::LargePayload => None,
        TestKind::ServerStream => Some(STREAM_CHUNKS as nat),
        TestKind::ClientStream => Some(STREAM_CHUNKS as nat),
        TestKind::BidiStream => Some((BIDI_CHUNKS * 2) as nat),
        TestKind::ManyRequests => Some(MANY_COUNT as nat),
    }
}

/// What a test is called while it runs.
pub open spec fn stage_text(kind: TestKind) -> Seq<char> {
    match kind {
        TestKind::SmallPayload => "[1/6] Small payload..."@,
        TestKind::LargePayload => "[2/6] Large payload..."@,
        TestKind::ServerStream => "[3/6] Server streaming..."@,
        TestKind::ClientStream => "[4/6] Client streaming..."@,
        TestKind::BidiStream => "[5/6] Bidirectional streaming..."@,
        TestKind::ManyRequests => "[6/6] Many small requests..."@,
    }
}

/// What a transport is called.
pub open spec fn protocol_text(protocol: Protocol) -> Seq<char> {
    match protocol {
        Protocol::Http3 => "HTTP/3"@,
        Protocol::Grpc => "gRPC"@,
        Protocol::Http2 => "HTTP/2"@,
    }
}

/// A number of bytes in kilobytes, rounded down.
pub open spec fn kilobytes(n: nat) -> Seq<char> {
    decimal::digits(n / 1024)
}

/// What a test is called in the summary.
pub open spec fn name_of(kind: TestKind) -> Seq<char> {
    match kind {
        TestKind::SmallPayload => "Small payload ("@ + decimal::digits(SMALL_SIZE as nat) + " B)"@,
        TestKind::LargePayload => "Large payload ("@ + kilobytes(LARGE_SIZE as nat) + " KB)"@,
        TestKind::ServerStream => "Server stream ("@ + decimal::digits(STREAM_CHUNKS as nat) + "x"@
            + kilobytes(STREAM_CHUNK_SIZE as nat) + " KB)"@,
        TestKind::ClientStream => "Client stream ("@ + decimal::digits(STREAM_CHUNKS as nat) + "x"@
            + kilobytes(STREAM_CHUNK_SIZE as nat) + " KB)"@,
        TestKind::BidiStream => "Bidi stream ("@ + decimal::digits(BIDI_CHUNKS as nat)
            + " each way)"@,
        TestKind::ManyRequests => "Many requests ("@ + decimal::digits(MANY_COUNT as nat) + ")"@,
    }
}

/// What a test is called, with the space that follows, where no summary is drawn up.
pub open spec fn label_of(kind: TestKind) -> Seq<char> {
    match kind {
        TestKind::SmallPayload => "Small payload ("@ + decimal::digits(SMALL_SIZE as nat)
            + " B):    "@,
        TestKind::LargePayload => "Large payload ("@ + kilobytes(LARGE_SIZE as nat) + " KB):  "@,
        TestKind::ServerStream => "Server stream ("@ + decimal::digits(STREAM_CHUNKS as nat)
            + " x "@ + kilobytes(STREAM_CHUNK_SIZE as nat) + " KB): "@,
        TestKind::ClientStream => "Client stream ("@ + decimal::digits(STREAM_CHUNKS as nat)
            + " x "@ + kilobytes(STREAM_CHUNK_SIZE as nat) + " KB): "@,
        TestKind::BidiStream => "Bidi stream ("@ + decimal::digits(BIDI_CHUNKS as nat)
            + " each way): "@,
        TestKind::ManyRequests => "Many requests ("@ + decimal::digits(MANY_COUNT as nat)
            + " reqs):  "@,
    }
}

impl Outcome {
    /// The test that finds this out.
    pub open spec fn kind_of(self) -> TestKind {
        match self {
            Outcome::SmallPayload { .. } => TestKind::SmallPayload,
            Outcome::LargePayload { .. } => TestKind::LargePayload,
            Outcome::ServerStream { .. } => TestKind::ServerStream,
            Outcome::ClientStream { .. } => TestKind::ClientStream,
            Outcome::ClientStreamCounted { .. } => TestKind::ClientStream,
            Outcome::BidiStream { .. } => TestKind::BidiStream,
            Outcome::ManyRequests => TestKind::ManyRequests,
        }
    }

    /// The bytes that were moved, both ways together, where a throughput is told.
    pub open spec fn moved(self) -> Option<nat> {
        match self {
            Outcome::SmallPayload { .. } => None,
            Outcome::LargePayload { received } => Some((LARGE_SIZE + received) as nat),
            Outcome::ServerStream { counted } => Some(counted.bytes as nat),
            Outcome::ClientStream { .. } => Some((STREAM_CHUNKS * STREAM_CHUNK_SIZE) as nat),
            Outcome::ClientStreamCounted { .. } => Some(
                (STREAM_CHUNKS * STREAM_CHUNK_SIZE) as nat,
            ),
            Outcome::BidiStream { counted } => Some(
                (BIDI_CHUNKS * STREAM_CHUNK_SIZE + counted.bytes) as nat,
            ),
            Outcome::ManyRequests => None,
        }
    }

    /// What the summary says about the outcome.
    pub open spec fn details_of(self, rate: Seq<char>) -> Seq<char> {
        match self {
            Outcome::SmallPayload { received } => "sent "@ + decimal::digits(SMALL_SIZE as nat)
                + " B, recv "@ + decimal::digits(received as nat) + " B"@,
            Outcome::LargePayload { .. } => ""@,
            Outcome::ServerStream { counted } => decimal::digits(counted.chunks as nat)
                + " chunks, "@ + decimal::digits(counted.bytes as nat) + " B"@,
            Outcome::ClientStream { reply } => "server resp: "@ + reply@,
            Outcome::ClientStreamCounted { response } => "server got "@ + decimal::signed_digits(
                response.total_chunks as int,
            ) + " chunks, "@ + decimal::signed_digits(response.total_bytes as int) + " B"@,
            Outcome::BidiStream { counted } => "sent "@ + decimal::digits(BIDI_CHUNKS as nat)
                + ", recv "@ + decimal::digits(counted.chunks as nat) + " chunks"@,
            Outcome::ManyRequests => rate + " req/s"@,
        }
    }

    /// What stands in brackets behind the time when the test is over.
    pub open spec fn remark_of(self, rate: Seq<char>) -> Seq<char> {
        if self.moved() is None {
            self.details_of(rate)
        } else if self is LargePayload {
            rate + " MB/s"@
        } else {
            rate + " MB/s, "@ + self.details_of(rate)
        }
    }

    /// The line that is shown when the test is over.
    pub open spec fn line_of(self, latency_ms: Seq<char>, rate: Seq<char>) -> Seq<char> {
        "  "@ + latency_ms + "ms  ("@ + self.remark_of(rate) + ")"@
    }

    /// The line that is shown when the test is over and no summary follows.
    pub open spec fn labelled_line_of(self, latency_ms: Seq<char>, rate: Seq<char>) -> Seq<char> {
        label_of(self.kind_of()) + latency_ms + "ms  ("@ + self.remark_of(rate) + (
        if self is ServerStream {
            " total)"@
        } else {
            ")"@
        })
    }

    /// The test that finds this out.
    pub fn kind(&self) -> (kind: TestKind)
        ensures
            kind == self.kind_of(),
    {
        match self {
            Outcome::SmallPayload { .. } => TestKind::SmallPayload,
            Outcome::LargePayload { .. } => TestKind::LargePayload,
            Outcome::ServerStream { .. } => TestKind::ServerStream,
            Outcome::ClientStream { .. } => TestKind::ClientStream,
            Outcome::ClientStreamCounted { .. } => TestKind::ClientStream,
            Outcome::BidiStream { .. } => TestKind::BidiStream,
            Outcome::ManyRequests => TestKind::ManyRequests,
        }
    }

    /// Whether the bytes that were moved can be added up, as
    /// [`Outcome::moved_bytes`] asks.
    pub fn adds_up(&self) -> (fits: bool)
        ensures
            fits == (self.moved() matches Some(n) ==> n <= usize::MAX),
    {
        match self {
            Outcome::LargePayload { received } => *received <= usize::MAX - LARGE_SIZE,
            Outcome::BidiStream { counted } => counted.bytes <= usize::MAX - BIDI_CHUNKS
                * STREAM_CHUNK_SIZE,
            _ => true,
        }
    }

    /// The bytes that were moved, both ways together, where a throughput is told.
    pub fn moved_bytes(&self) -> (moved: Option<usize>)
        requires
            self.moved() matches Some(n) ==> n <= usize::MAX,
        ensures
            moved is Some <==> self.moved() is Some,
            moved matches Some(n) ==> self.moved() == Some(n as nat),
    {
        match self {
            Outcome::SmallPayload { .. } => None,
            Outcome::LargePayload { received } => Some(LARGE_SIZE + *received),
            Outcome::ServerStream { counted } => Some(counted.bytes),
            Outcome::ClientStream { .. } => Some(STREAM_CHUNKS * STREAM_CHUNK_SIZE),
            Outcome::ClientStreamCounted { .. } => Some(STREAM_CHUNKS * STREAM_CHUNK_SIZE),
            Outcome::BidiStream { counted } => Some(
                BIDI_CHUNKS * STREAM_CHUNK_SIZE + counted.bytes,
            ),
            Outcome::ManyRequests => None,
        }
    }

    /// What the summary says about the outcome.
    pub fn details(&self, rate: &str) -> (text: String)
        ensures
            text@ == self.details_of(rate@),
    {
        match self {
            Outcome::SmallPayload { received } => {
                let mut text = join3("sent ", decimal(SMALL_SIZE as u64).as_str(), " B, recv ");
                text.append(decimal(*received as u64).as_str());
                text.append(" B");
                text
            },
            Outcome::LargePayload { .. } => "".to_owned(),
            Outcome::ServerStream { counted } => {
                let mut text = decimal(counted.chunks as u64);
                text.append(" chunks, ");
                text.append(decimal(counted.bytes as u64).as_str());
                text.append(" B");
                text
            },
            Outcome::ClientStream { reply } => {
                let mut text = "server resp: ".to_owned();
                text.append(reply.as_str());
                text
            },
            Outcome::ClientStreamCounted { response } => {
                let mut text = "server got ".to_owned();
                text.append(signed_decimal(response.total_chunks as i64).as_str());
                text.append(" chunks, ");
                text.append(signed_decimal(response.total_bytes).as_str());
                text.append(" B");
                text
            },
            Outcome::BidiStream { counted } => {
                let mut text = join3("sent ", decimal(BIDI_CHUNKS as u64).as_str(), ", recv ");
                text.append(decimal(counted.chunks as u64).as_str());
                text.append(" chunks");
                text
            },
            Outcome::ManyRequests => {
                let mut text = rate.to_owned();
                text.append(" req/s");
                text
            },
        }
    }

    /// What stands in brackets behind the time when the test is over.
    fn remark(&self, rate: &str) -> (text: String)
        ensures
            text@ == self.remark_of(rate@),
    {
        match self {
            Outcome::SmallPayload { .. } => self.details(rate),
            Outcome::ManyRequests => self.details(rate),
            Outcome::LargePayload { .. } => {
                let mut text = rate.to_owned();
                text.append(" MB/s");
                text
            },
            _ => join3(rate, " MB/s, ", self.details(rate).as_str()),
        }
    }

    /// The line that is shown when the test is over.
    pub fn line(&self, figures: &Figures) -> (text: String)
        ensures
            text@ == self.line_of(figures.latency_ms@, figures.rate@),
    {
        let mut text = join3("  ", figures.latency_ms.as_str(), "ms  (");
        text.append(self.remark(figures.rate.as_str()).as_str());
        text.append(")");
        text
    }

    /// The line that is shown when the test is over and no summary follows.
    pub fn labelled_line(&self, figures: &Figures) -> (text: String)
        ensures
            text@ == self.labelled_line_of(figures.latency_ms@, figures.rate@),
    {
        let mut text = label(self.kind());
        text.append(figures.latency_ms.as_str());
        text.append("ms  (");
        text.append(self.remark(figures.rate.as_str()).as_str());
        match self {
            Outcome::ServerStream { .. } => {
                text.append(" total)");
            },
            _ => {
                text.append(")");
            },
        }
        text
    }

    /// The line of the summary.
    pub fn result(&self, figures: Figures) -> (result: TestResult)
        ensures
            result.name@ == name_of(self.kind_of()),
            result.latency_ms@ == figures.latency_ms@,
            result.throughput_mbs is Some <==> self.moved() is Some,
            result.throughput_mbs matches Some(t) ==> t@ == figures.rate@,
            result.details@ == self.details_of(figures.rate@),
    {
        let details = self.details(figures.rate.as_str());
        let throughput_mbs = match self {
            Outcome::SmallPayload { .. } => None,
            Outcome::ManyRequests => None,
            _ => Some(figures.rate),
        };
        TestResult {
            name: name(self.kind()),
            latency_ms: figures.latency_ms,
            throughput_mbs,
            details,
        }
    }
}

/// The tests, in the sequence in which they run.
pub fn suite() -> (tests: Vec<TestKind>)
    ensures
        tests@ == suite_order(),
{
    vec![
        TestKind::SmallPayload,
        TestKind::LargePayload,
        TestKind::ServerStream,
        TestKind::ClientStream,
        TestKind::BidiStream,
        TestKind::ManyRequests,
    ]
}

/// How many steps the progress of a test has.
pub fn progress_len(kind: TestKind) -> (steps: Option<u64>)
    ensures
        steps is Some <==> progress_steps(kind) is Some,
        steps matches Some(n) ==> progress_steps(kind) == Some(n as nat),
{
    match kind {
        TestKind::SmallPayload => None,
        TestKind::LargePayload => None,
        TestKind::ServerStream => Some(STREAM_CHUNKS as u64),
        TestKind::ClientStream => Some(STREAM_CHUNKS as u64),
        TestKind::BidiStream => Some((BIDI_CHUNKS * 2) as u64),
        TestKind::ManyRequests => Some(MANY_COUNT as u64),
    }
}

/// What a test is called while it runs.
pub fn stage_line(kind: TestKind) -> (line: &'static str)
    ensures
        line@ == stage_text(kind),
{
    match kind {
        TestKind::SmallPayload => "[1/6] Small payload...",
        TestKind::LargePayload => "[2/6] Large payload...",
        TestKind::ServerStream => "[3/6] Server streaming...",
        TestKind::ClientStream => "[4/6] Client streaming...",
        TestKind::BidiStream => "[5/6] Bidirectional streaming...",
        TestKind::ManyRequests => "[6/6] Many small requests...",
    }
}

/// What a transport is called.
fn protocol_name(protocol: Protocol) -> (name: &'static str)
    ensures
        name@ == protocol_text(protocol),
{
    match protocol {
        Protocol::Http3 => "HTTP/3",
        Protocol::Grpc => "gRPC",
        Protocol::Http2 => "HTTP/2",
    }
}

/// What a client shows before the first test: a heading and an empty line.
pub fn banner(protocol: Protocol) -> (text: String)
    ensures
        text@ == "=== "@ + protocol_text(protocol) + " Benchmark ===\n"@,
{
    join3("=== ", protocol_name(protocol), " Benchmark ===\n")
}

/// The heading of the summary.
pub fn summary_title(protocol: Protocol) -> (text: String)
    ensures
        text@ == protocol_text(protocol) + " Benchmark Results"@,
{
    let mut text = protocol_name(protocol).to_owned();
    text.append(" Benchmark Results");
    text
}

/// What a test is called in the summary.
pub fn name(kind: TestKind) -> (text: String)
    ensures
        text@ == name_of(kind),
{
    match kind {
        TestKind::SmallPayload => join3(
            "Small payload (",
            decimal(SMALL_SIZE as u64).as_str(),
            " B)",
        ),
        TestKind::LargePayload => join3(
            "Large payload (",
            decimal(LARGE_SIZE as u64 / 1024).as_str(),
            " KB)",
        ),
        TestKind::ServerStream => stream_name("Server stream (", "x", " KB)"),
        TestKind::ClientStream => stream_name("Client stream (", "x", " KB)"),
        TestKind::BidiStream => join3(
            "Bidi stream (",
            decimal(BIDI_CHUNKS as u64).as_str(),
            " each way)",
        ),
        TestKind::ManyRequests => join3("Many requests (", decimal(MANY_COUNT as u64).as_str(), ")"),
    }
}

/// What a test is called, with the space that follows, where no summary is drawn up.
pub fn label(kind: TestKind) -> (text: String)
    ensures
        text@ == label_of(kind),
{
    match kind {
        TestKind::SmallPayload => join3(
            "Small payload (",
            decimal(SMALL_SIZE as u64).as_str(),
            " B):    ",
        ),
        TestKind::LargePayload => join3(
            "Large payload (",
            decimal(LARGE_SIZE as u64 / 1024).as_str(),
            " KB):  ",
        ),
        TestKind::ServerStream => stream_name("Server stream (", " x ", " KB): "),
        TestKind::ClientStream => stream_name("Client stream (", " x ", " KB): "),
        TestKind::BidiStream => join3(
            "Bidi stream (",
            decimal(BIDI_CHUNKS as u64).as_str(),
            " each way): ",
        ),
        TestKind::ManyRequests => join3(
            "Many requests (",
            decimal(MANY_COUNT as u64).as_str(),
            " reqs):  ",
        ),
    }
}

/// The name of a stream test: how many chunks, and how large they are.
fn stream_name(before: &str, between: &str, behind: &str) -> (text: String)
    ensures
        text@ == before@ + decimal::digits(STREAM_CHUNKS as nat) + between@ + kilobytes(
            STREAM_CHUNK_SIZE as nat,
        ) + behind@,
{
    let mut text = join3(before, decimal(STREAM_CHUNKS as u64).as_str(), between);
    text.append(decimal(STREAM_CHUNK_SIZE as u64 / 1024).as_str());
    text.append(behind);
    text
}

/// Columns of the summary: the name, the time, the throughput and the details.
pub open spec fn row_of(
    name: Seq<char>,
    latency: Seq<char>,
    throughput: Seq<char>,
    details: Seq<char>,
) -> Seq<char> {
    text::left_aligned(name, 30) + " "@ + text::right_aligned(latency, 10) + " "@
        + text::right_aligned(throughput, 14) + "   "@ + details
}

/// What the throughput column shows.
pub open spec fn throughput_text(result: TestResult) -> Seq<char> {
    match result.throughput_mbs {
        Some(t) => t@ + " MB/s"@,
        None => "-"@,
    }
}

/// The line of the summary for one result.
pub open spec fn result_row(result: TestResult) -> Seq<char> {
    row_of(result.name@, result.latency_ms@ + "ms"@, throughput_text(result), result.details@)
}

/// The lines of the summary for some results, each ended.
pub open spec fn result_rows(results: Seq<TestResult>) -> Seq<char>
    decreases results.len(),
{
    if results.len() == 0 {
        Seq::empty()
    } else {
        result_rows(results.drop_last()) + result_row(results.last()) + "\n"@
    }
}

/// A rule across the summary, ended.
pub open spec fn rule_of(c: char) -> Seq<char> {
    text::repeated(c, 72) + "\n"@
}

/// The whole summary: an empty line, the title between two rules, the heads
/// of the columns, a thin rule, a line for each result, and a last rule.
pub open spec fn summary_of(title: Seq<char>, results: Seq<TestResult>) -> Seq<char> {
    "\n"@ + rule_of('=') + title + "\n"@ + rule_of('=') + row_of(
        "Test"@,
        "Latency"@,
        "Throughput"@,
        "Details"@,
    ) + "\n"@ + rule_of('-') + result_rows(results) + rule_of('=')
}

/// Where everything fits its column, the details of every line start at the
/// same place.
pub proof fn law_details_line_up(
    name: Seq<char>,
    latency: Seq<char>,
    throughput: Seq<char>,
    details: Seq<char>,
)
    requires
        name.len() <= 30,
        latency.len() <= 10,
        throughput.len() <= 14,
    ensures
        row_of(name, latency, throughput, details).skip(59) == details,
{
    reveal_strlit(" ");
    reveal_strlit("   ");
    text::law_alignment_fills_the_column(name, 30);
    text::law_alignment_fills_the_column(latency, 10);
    text::law_alignment_fills_the_column(throughput, 14);
    assert(row_of(name, latency, throughput, details).skip(59) =~= details);
}

/// The names of the tests fit their column.
pub proof fn law_names_fit_their_column(kind: TestKind)
    ensures
        name_of(kind).len() <= 30,
{
    reveal_with_fuel(decimal::digits, 5);
    reveal_strlit("Small payload (");
    reveal_strlit(" B)");
    reveal_strlit("Large payload (");
    reveal_strlit(" KB)");
    reveal_strlit("Server stream (");
    reveal_strlit("Client stream (");
    reveal_strlit("x");
    reveal_strlit("Bidi stream (");
    reveal_strlit(" each way)");
    reveal_strlit("Many requests (");
    reveal_strlit(")");
}

/// One line of columns.
fn row(name: &str, latency: &str, throughput: &str, details: &str) -> (line: String)
    ensures
        line@ == row_of(name@, latency@, throughput@, details@),
{
    let mut line = align_left(name, 30);
    line.append(" ");
    line.append(align_right(latency, 10).as_str());
    line.append(" ");
    line.append(align_right(throughput, 14).as_str());
    line.append("   ");
    line.append(details);
    line
}

/// A rule across the summary, ended.
fn rule(unit: &str) -> (line: String)
    requires
        unit@.len() == 1,
    ensures
        line@ == rule_of(unit@[0]),
{
    let mut line = repeat(unit, 72);
    line.append("\n");
    line
}

/// The line of the summary for one result.
pub fn summary_row(result: &TestResult) -> (line: String)
    ensures
        line@ == result_row(*result),
{
    let mut latency = result.latency_ms.as_str().to_owned();
    latency.append("ms");
    let throughput = match &result.throughput_mbs {
        Some(t) => {
            let mut shown = t.as_str().to_owned();
            shown.append(" MB/s");
            shown
        },
        None => "-".to_owned(),
    };
    row(
        result.name.as_str(),
        latency.as_str(),
        throughput.as_str(),
        result.details.as_str(),
    )
}

/// Draws up the summary.
pub fn print_summary(title: &str, results: &Vec<TestResult>) -> (out: String)
    ensures
        out@ == summary_of(title@, results@),
{
    proof {
        reveal_strlit("=");
        reveal_strlit("-");
    }
    let mut out = "\n".to_owned();
    out.append(rule("=").as_str());
    out.append(title);
    out.append("\n");
    out.append(rule("=").as_str());
    out.append(row("Test", "Latency", "Throughput", "Details").as_str());
    out.append("\n");
    out.append(rule("-").as_str());
    let ghost head = out@;
    let mut i: usize = 0;
    assert(results@.take(0) =~= Seq::<TestResult>::empty());
    assert(out@ =~= head + result_rows(results@.take(0)));
    while i < results.len()
        invariant
            0 <= i <= results@.len(),
            out@ == head + result_rows(results@.take(i as int)),
        decreases results@.len() - i,
    {
        let ghost before = out@;
        let line = summary_row(&results[i]);
        out.append(line.as_str());
        out.append("\n");
        proof {
            let next = results@.take(i + 1);
            assert(next.drop_last() =~= results@.take(i as int));
            assert(out@ =~= head + result_rows(next));
        }
        i = i + 1;
    }
    assert(results@.take(i as int) =~= results@);
    out.append(rule("=").as_str());
    out
}

/// An outcome belongs to the test that it is of, whatever was counted.
pub proof fn law_outcome_belongs_to_its_test(
    received: usize,
    counted: Tally,
    reply: String,
    response: StreamResponse,
)
    ensures
        (Outcome::SmallPayload { received }).kind_of() == TestKind::SmallPayload,
        (Outcome::LargePayload { received }).kind_of() == TestKind::LargePayload,
        (Outcome::ServerStream { counted }).kind_of() == TestKind::ServerStream,
        (Outcome::ClientStream { reply }).kind_of() == TestKind::ClientStream,
        (Outcome::ClientStreamCounted { response }).kind_of() == TestKind::ClientStream,
        (Outcome::BidiStream { counted }).kind_of() == TestKind::BidiStream,
        Outcome::ManyRequests.kind_of() == TestKind::ManyRequests,
{
}

/// A throughput is told of the four tests that move much, and of no other. What
/// comes back adds to what was sent, byte for byte; what a server says about a
/// stream does not change how much was sent.
pub proof fn law_every_received_byte_is_moved(
    received: usize,
    counted: Tally,
    reply: String,
    response: StreamResponse,
)
    ensures
        (Outcome::SmallPayload { received }).moved() is None,
        (Outcome::LargePayload { received }).moved() == Some((1048576 + received) as nat),
        (Outcome::ServerStream { counted }).moved() == Some(counted.bytes as nat),
        (Outcome::ClientStream { reply }).moved() == Some(1024000nat),
        (Outcome::ClientStreamCounted { response }).moved() == Some(1024000nat),
        (Outcome::BidiStream { counted }).moved() == Some((512000 + counted.bytes) as nat),
        Outcome::ManyRequests.moved() is None,
{
}

/// The details tell what was counted, in decimal, and what a server said, word
/// for word. The rate stands in them only where requests are counted.
pub proof fn law_details_tell_what_was_counted(
    received: usize,
    counted: Tally,
    reply: String,
    response: StreamResponse,
    rate: Seq<char>,
)
    ensures
        (Outcome::SmallPayload { received }).details_of(rate) == "sent 20 B, recv "@
            + decimal::digits(received as nat) + " B"@,
        (Outcome::LargePayload { received }).details_of(rate).len() == 0,
        (Outcome::ServerStream { counted }).details_of(rate) == decimal::digits(
            counted.chunks as nat,
        ) + " chunks, "@ + decimal::digits(counted.bytes as nat) + " B"@,
        (Outcome::ClientStream { reply }).details_of(rate) == "server resp: "@ + reply@,
        (Outcome::ClientStreamCounted { response }).details_of(rate) == "server got "@
            + decimal::signed_digits(response.total_chunks as int) + " chunks, "@
            + decimal::signed_digits(response.total_bytes as int) + " B"@,
        (Outcome::BidiStream { counted }).details_of(rate) == "sent 50, recv "@ + decimal::digits(
            counted.chunks as nat,
        ) + " chunks"@,
        Outcome::ManyRequests.details_of(rate) == rate + " req/s"@,
{
    reveal_with_fuel(decimal::digits, 2);
    reveal_strlit("");
    reveal_strlit("sent ");
    reveal_strlit(" B, recv ");
    reveal_strlit("sent 20 B, recv ");
    reveal_strlit(", recv ");
    reveal_strlit("sent 50, recv ");
    assert("sent "@ + decimal::digits(20) + " B, recv "@ =~= "sent 20 B, recv "@);
    assert("sent "@ + decimal::digits(50) + ", recv "@ =~= "sent 50, recv "@);
}

/// The line of a test shows its own time first, and then in brackets the rate
/// and the details: no rate where nothing is told of one, and no details of a
/// large payload.
pub proof fn law_line_shows_time_rate_and_details(
    outcome: Outcome,
    latency: Seq<char>,
    rate: Seq<char>,
)
    ensures
        ({
            let line = outcome.line_of(latency, rate);
            let inner = match outcome {
                Outcome::SmallPayload { .. } => outcome.details_of(rate),
                Outcome::ManyRequests => outcome.details_of(rate),
                Outcome::LargePayload { .. } => rate + " MB/s"@,
                _ => rate + " MB/s, "@ + outcome.details_of(rate),
            };
            let n = 2 + latency.len() as int;
            &&& line.take(2) == "  "@
            &&& line.subrange(2, n) == latency
            &&& line.subrange(n, n + 5) == "ms  ("@
            &&& line.subrange(n + 5, n + 5 + inner.len()) == inner
            &&& line.skip(n + 5 + inner.len()) == ")"@
        }),
{
    reveal_strlit("  ");
    reveal_strlit("ms  (");
    reveal_strlit(")");
    let line = outcome.line_of(latency, rate);
    let inner = outcome.remark_of(rate);
    let n = 2 + latency.len() as int;
    assert(line.take(2) =~= "  "@);
    assert(line.subrange(2, n) =~= latency);
    assert(line.subrange(n, n + 5) =~= "ms  ("@);
    assert(line.subrange(n + 5, n + 5 + inner.len()) =~= inner);
    assert(line.skip(n + 5 + inner.len()) =~= ")"@);
}

/// Where no summary follows, the same line has the name of its test in front in
/// place of the indent, and a stream from the server is said to be a total.
pub proof fn law_labelled_line_is_the_line_with_its_name(
    outcome: Outcome,
    latency: Seq<char>,
    rate: Seq<char>,
)
    ensures
        ({
            let plain = outcome.line_of(latency, rate).skip(2);
            let named = outcome.labelled_line_of(latency, rate);
            &&& outcome !is ServerStream ==> named == label_of(outcome.kind_of()) + plain
            &&& outcome is ServerStream ==> named == label_of(TestKind::ServerStream)
                + plain.drop_last() + " total)"@
        }),
{
    reveal_strlit("  ");
    reveal_strlit(")");
    let plain = outcome.line_of(latency, rate).skip(2);
    let named = outcome.labelled_line_of(latency, rate);
    let inner = latency + "ms  ("@ + outcome.remark_of(rate);
    assert(plain =~= inner + ")"@);
    assert(plain.drop_last() =~= inner);
    if outcome is ServerStream {
        assert(named =~= label_of(TestKind::ServerStream) + plain.drop_last() + " total)"@);
    } else {
        assert(named =~= label_of(outcome.kind_of()) + plain);
    }
}

/// A line of the summary shows one result and nothing else: its name, its own
/// latency followed by `ms`, its own throughput followed by `MB/s` or a dash,
/// and its details, each in its column.
pub proof fn law_row_shows_its_own_result(result: TestResult)
    ensures
        ({
            let row = result_row(result);
            let name = text::left_aligned(result.name@, 30);
            let latency = text::right_aligned(result.latency_ms@ + "ms"@, 10);
            let throughput = text::right_aligned(
                match result.throughput_mbs {
                    Some(rate) => rate@ + " MB/s"@,
                    None => "-"@,
                },
                14,
            );
            let a = name.len() as int;
            let b = a + 1 + latency.len();
            let c = b + 1 + throughput.len();
            &&& row.take(a) == name
            &&& row[a] == ' '
            &&& row.subrange(a + 1, b) == latency
            &&& row[b] == ' '
            &&& row.subrange(b + 1, c) == throughput
            &&& row.subrange(c, c + 3) == "   "@
            &&& row.skip(c + 3) == result.details@
        }),
{
    reveal_strlit(" ");
    reveal_strlit("   ");
    let row = result_row(result);
    let name = text::left_aligned(result.name@, 30);
    let latency = text::right_aligned(result.latency_ms@ + "ms"@, 10);
    let throughput = text::right_aligned(throughput_text(result), 14);
    let a = name.len() as int;
    let b = a + 1 + latency.len();
    let c = b + 1 + throughput.len();
    assert(row.take(a) =~= name);
    assert(row.subrange(a + 1, b) =~= latency);
    assert(row.subrange(b + 1, c) =~= throughput);
    assert(row.subrange(c, c + 3) =~= "   "@);
    assert(row.skip(c + 3) =~= result.details@);
}

/// The lines of some results and then of others are the lines of both: the line
/// of a result depends on that result alone.
pub proof fn law_rows_are_independent(front: Seq<TestResult>, back: Seq<TestResult>)
    ensures
        result_rows(Seq::<TestResult>::empty()).len() == 0,
        result_rows(front + back) == result_rows(front) + result_rows(back),
    decreases back.len(),
{
    if back.len() == 0 {
        assert(front + back =~= front);
        assert(result_rows(front) + result_rows(back) =~= result_rows(front));
    } else {
        law_rows_are_independent(front, back.drop_last());
        assert((front + back).drop_last() =~= front + back.drop_last());
        assert((front + back).last() == back.last());
        assert(result_rows(front) + result_rows(back) =~= result_rows(front) + result_rows(
            back.drop_last(),
        ) + result_row(back.last()) + "\n"@);
    }
}

/// One more result adds one line to the summary, the row of that very result,
/// in front of the last rule. All else stays as it was.
pub proof fn law_result_adds_its_own_line(
    title: Seq<char>,
    results: Seq<TestResult>,
    added: TestResult,
)
    ensures
        ({
            let before = summary_of(title, results);
            let cut = before.len() - 73;
            summary_of(title, results.push(added)) == before.take(cut) + result_row(added) + "\n"@
                + before.skip(cut)
        }),
{
    reveal_strlit("\n");
    let before = summary_of(title, results);
    let after = summary_of(title, results.push(added));
    let cut = before.len() - 73;
    let foot = rule_of('=');
    assert(results.push(added).drop_last() =~= results);
    let head = "\n"@ + rule_of('=') + title + "\n"@ + rule_of('=') + row_of(
        "Test"@,
        "Latency"@,
        "Throughput"@,
        "Details"@,
    ) + "\n"@ + rule_of('-') + result_rows(results);
    assert(foot.len() == 73);
    assert(before =~= head + foot);
    assert(before.take(cut) =~= head);
    assert(before.skip(cut) =~= foot);
    assert(after =~= head + result_row(added) + "\n"@ + foot);
}

/// The title stands in its place below the first rule, and changes nothing else.
pub proof fn law_title_stands_alone(title: Seq<char>, results: Seq<TestResult>)
    ensures
        ({
            let bare = summary_of(Seq::<char>::empty(), results);
            summary_of(title, results) == bare.take(74) + title + bare.skip(74)
        }),
{
    reveal_strlit("\n");
    let bare = summary_of(Seq::<char>::empty(), results);
    let above = "\n"@ + rule_of('=');
    let below = "\n"@ + rule_of('=') + row_of("Test"@, "Latency"@, "Throughput"@, "Details"@)
        + "\n"@ + rule_of('-') + result_rows(results) + rule_of('=');
    assert(above.len() == 74);
    assert(bare =~= above + below);
    assert(bare.take(74) =~= above);
    assert(bare.skip(74) =~= below);
    assert(summary_of(title, results) =~= above + title + below);
}

} // verus!
