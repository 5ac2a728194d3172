//! The text a worker emits: one line per record, its fields in decimal and
//! separated by tabs.
use vstd::prelude::*;
use crate::decimal::DIGIT_ZERO;
use crate::worker::SampleRecord;

verus! {

/// Byte value of the tab character.
pub const TAB: u8 = 9;

/// Byte value of the line feed.
pub const NEWLINE: u8 = 10;

/// The decimal digits of `v`, most significant first, without leading zeros.
pub open spec fn decimal_of(v: nat) -> Seq<u8>
    decreases v,
{
    if v < 10 {
        seq![(DIGIT_ZERO + v) as u8]
    } else {
        decimal_of(v / 10).push((DIGIT_ZERO + v % 10) as u8)
    }
}

/// `worker_id`, elapsed milliseconds and percent, tab-separated, then a newline.
pub open spec fn line_of(r: SampleRecord) -> Seq<u8> {
    decimal_of(r.worker_id as nat) + seq![TAB] + decimal_of(r.elapsed_ms_since_start as nat) + seq![TAB]
        + decimal_of(r.progress_percent as nat) + seq![NEWLINE]
}

/// The lines of `records`, in order.
pub open spec fn text_of(records: Seq<SampleRecord>) -> Seq<u8>
    decreases records.len(),
{
    if records.len() == 0 {
        Seq::empty()
    } else {
        text_of(records.drop_last()) + line_of(records.last())
    }
}

/// Appends the decimal digits of `v`.
pub fn push_decimal(out: &mut Vec<u8>, v: u64)
    ensures
        final(out)@ == old(out)@ + decimal_of(v as nat),
    decreases v,
{
    if v >= 10 {
        push_decimal(out, v / 10);
    }
    out.push(DIGIT_ZERO + (v % 10) as u8);
    assert(final(out)@ =~= old(out)@ + decimal_of(v as nat));
}

/// Appends the line of one record.
pub fn push_record_line(out: &mut Vec<u8>, r: &SampleRecord)
    ensures
        final(out)@ == old(out)@ + line_of(*r),
{
    push_decimal(out, r.worker_id as u64);
    out.push(TAB);
    push_decimal(out, r.elapsed_ms_since_start);
    out.push(TAB);
    push_decimal(out, r.progress_percent as u64);
    out.push(NEWLINE);
    assert(final(out)@ =~= old(out)@ + line_of(*r));
}

/// The text that a worker writes for its records once its sampling is over.
pub fn records_text(records: &Vec<SampleRecord>) -> (r: Vec<u8>)
    ensures
        r@ == text_of(records@),
{
    let mut out: Vec<u8> = Vec::new();
    let mut i: usize = 0;
    while i < records.len()
        invariant
            i <= records@.len(),
            out@ == text_of(records@.subrange(0, i as int)),
        decreases records@.len() - i,
    {
        push_record_line(&mut out, &records[i]);
        assert(records@.subrange(0, i + 1).drop_last() =~= records@.subrange(0, i as int));
        i = i + 1;
    }
    assert(records@.subrange(0, records@.len() as int) =~= records@);
    out
}

} // verus!
