//! Plain records of exported spans, and their rendering as the
//! newline-delimited JSON format of the file backend: one object per span,
//! with `name`, `span_id`, `start_time` / `end_time` (microseconds since the
//! epoch, encoded as strings), `status` and a `links` array.

use vstd::prelude::*;
use vstd::string::StrSliceExecFns;
use vstd::string::StringExecFns;

use crate::strutil::{push_char, spec_dec_seq, u64_to_dec_string};

verus! {

/// One exported span, reduced to plain values.
pub struct SpanRecord {
    /// Span name.
    pub name: String,
    /// Span identity, in the collaborator's display form.
    pub span_id: String,
    /// Identity of the trace this span belongs to; a child created from a
    /// parent's context snapshot carries the parent's trace identity.
    pub trace_id: String,
    /// Start time, microseconds since the epoch (zero when before it).
    pub start_time_us: u64,
    /// End time, microseconds since the epoch (zero when before it).
    pub end_time_us: u64,
    /// Status: `Unset`, `Ok` or `Error`.
    pub status: String,
    /// Description carried by an `Error` status; empty otherwise.
    pub status_description: String,
    /// Identities of the spans this span links to, in link order.
    pub link_span_ids: Vec<String>,
}

/// How one character is written inside a JSON string: quotes and backslashes
/// get a backslash in front, everything else stands as it is.
pub open spec fn spec_esc_char(c: char) -> Seq<char> {
    if c == '"' || c == '\\' {
        seq!['\\', c]
    } else {
        seq![c]
    }
}

/// A character sequence written inside a JSON string.
pub open spec fn spec_json_escape(s: Seq<char>) -> Seq<char>
    decreases s.len(),
{
    if s.len() == 0 {
        Seq::empty()
    } else {
        spec_esc_char(s[0]) + spec_json_escape(s.skip(1))
    }
}

proof fn lemma_json_escape_push(s: Seq<char>, c: char)
    ensures
        spec_json_escape(s.push(c)) == spec_json_escape(s) + spec_esc_char(c),
    decreases s.len(),
{
    if s.len() == 0 {
        assert(s.push(c).len() == 1);
        assert(s.push(c)[0] == c);
        assert(s.push(c).skip(1) =~= Seq::<char>::empty());
        assert(spec_json_escape(s.push(c)) == spec_esc_char(c) + spec_json_escape(
            Seq::<char>::empty(),
        ));
        assert(spec_json_escape(s.push(c)) =~= spec_json_escape(s) + spec_esc_char(c));
    } else {
        assert(s.push(c)[0] == s[0]);
        assert(s.push(c).skip(1) =~= s.skip(1).push(c));
        lemma_json_escape_push(s.skip(1), c);
        assert(spec_json_escape(s.push(c)) =~= spec_json_escape(s) + spec_esc_char(c));
    }
}

/// Escapes a string for inclusion inside a JSON string literal.
pub fn json_escape(s: &str) -> (r: String)
    ensures
        r@ == spec_json_escape(s@),
{
    let mut out = String::new();
    let len = s.unicode_len();
    let mut i: usize = 0;
    while i < len
        invariant
            len == s@.len(),
            i <= len,
            out@ == spec_json_escape(s@.take(i as int)),
        decreases len - i,
    {
        let c = s.get_char(i);
        if c == '"' || c == '\\' {
            push_char(&mut out, '\\');
            push_char(&mut out, c);
        } else {
            push_char(&mut out, c);
        }
        proof {
            assert(s@.take(i + 1 as int) =~= s@.take(i as int).push(s@[i as int]));
            lemma_json_escape_push(s@.take(i as int), s@[i as int]);
        }
        i = i + 1;
    }
    proof {
        assert(s@.take(len as int) =~= s@);
    }
    out
}

/// The elements of the `links` array from position `i` on: one object per
/// linked span, separated by commas.
pub open spec fn spec_links_json_from(ids: Seq<Seq<char>>, i: int) -> Seq<char>
    decreases ids.len() - i,
{
    if i < 0 || i >= ids.len() {
        Seq::empty()
    } else {
        (if i > 0 {
            ","@
        } else {
            Seq::<char>::empty()
        }) + "{\"span_id\":\""@ + ids[i] + "\"}"@ + spec_links_json_from(ids, i + 1)
    }
}

/// The complete `links` array.
pub open spec fn spec_links_json(ids: Seq<Seq<char>>) -> Seq<char> {
    "["@ + spec_links_json_from(ids, 0) + "]"@
}

fn links_json(ids: &Vec<String>) -> (s: String)
    ensures
        s@ == spec_links_json(ids.deep_view()),
{
    let ghost gids = ids.deep_view();
    let mut s = String::from_str("[");
    let n = ids.len();
    let mut i: usize = 0;
    while i < n
        invariant
            gids == ids.deep_view(),
            n == ids.len(),
            gids.len() == n,
            i <= n,
            s@ + spec_links_json_from(gids, i as int) == "["@ + spec_links_json_from(gids, 0),
        decreases n - i,
    {
        let ghost s0 = s@;
        if i > 0 {
            s.append(",");
        }
        s.append("{\"span_id\":\"");
        s.append(ids[i].as_str());
        s.append("\"}");
        proof {
            assert(gids[i as int] == ids@[i as int]@);
            let chunk = (if i > 0 {
                ","@
            } else {
                Seq::<char>::empty()
            }) + "{\"span_id\":\""@ + gids[i as int] + "\"}"@;
            assert(s@ =~= s0 + chunk);
            assert(spec_links_json_from(gids, i as int) == chunk + spec_links_json_from(
                gids,
                i + 1 as int,
            ));
            assert(s0 + (chunk + spec_links_json_from(gids, i + 1 as int)) =~= (s0 + chunk)
                + spec_links_json_from(gids, i + 1 as int));
        }
        i = i + 1;
    }
    proof {
        assert(spec_links_json_from(gids, n as int) =~= Seq::<char>::empty());
        assert(s@ + Seq::<char>::empty() =~= s@);
    }
    s.append("]");
    s
}

/// The JSON object line written for one exported span.
pub open spec fn spec_record_line(r: SpanRecord) -> Seq<char> {
    "{\"name\":\""@ + spec_json_escape(r.name@) + "\",\"span_id\":\""@ + r.span_id@
        + "\",\"trace_id\":\""@ + r.trace_id@ + "\",\"start_time\":\""@ + spec_dec_seq(r.start_time_us as nat) + "\",\"end_time\":\""@
        + spec_dec_seq(r.end_time_us as nat) + "\",\"status\":\""@ + spec_json_escape(r.status@)
        + "\",\"status_description\":\""@ + spec_json_escape(r.status_description@)
        + "\",\"links\":"@ + spec_links_json(r.link_span_ids.deep_view()) + "}"@
}

impl SpanRecord {
    /// Renders this record as one JSON object, exactly as `spec_record_line`
    /// lays it out.
    pub fn to_json_line(&self) -> (s: String)
        ensures
            s@ == spec_record_line(*self),
    {
        let mut s = String::from_str("{\"name\":\"");
        s.append(json_escape(self.name.as_str()).as_str());
        s.append("\",\"span_id\":\"");
        s.append(self.span_id.as_str());
        s.append("\",\"trace_id\":\"");
        s.append(self.trace_id.as_str());
        s.append("\",\"start_time\":\"");
        s.append(u64_to_dec_string(self.start_time_us).as_str());
        s.append("\",\"end_time\":\"");
        s.append(u64_to_dec_string(self.end_time_us).as_str());
        s.append("\",\"status\":\"");
        s.append(json_escape(self.status.as_str()).as_str());
        s.append("\",\"status_description\":\"");
        s.append(json_escape(self.status_description.as_str()).as_str());
        s.append("\",\"links\":");
        s.append(links_json(&self.link_span_ids).as_str());
        s.append("}");
        s
    }
}

/// Renders a batch of exported spans, one JSON line per span, in order.
pub fn span_records_to_json_lines(records: &Vec<SpanRecord>) -> (lines: Vec<String>)
    ensures
        lines@.len() == records@.len(),
        forall|i: int|
            0 <= i < records@.len() ==> lines@[i]@ == spec_record_line(records@[i]),
{
    let mut lines: Vec<String> = Vec::new();
    let n = records.len();
    let mut i: usize = 0;
    while i < n
        invariant
            n == records@.len(),
            i <= n,
            lines@.len() == i,
            forall|j: int| 0 <= j < i ==> lines@[j]@ == spec_record_line(records@[j]),
        decreases n - i,
    {
        lines.push(records[i].to_json_line());
        i = i + 1;
    }
    lines
}

} // verus!
