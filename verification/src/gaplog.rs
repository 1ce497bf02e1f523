//! The dead-air ledger's format: one CSV row per take under a fixed
//! header. A file whose first line is not this header holds an older
//! schema: it is shelved under a stamped name, never appended to.

use crate::text::{decimal, decimal_string, trim, trimmed};
use vstd::prelude::*;

verus! {

/// The ledger's file name in the app config dir.
pub const GAP_LOG_FILE: &'static str = "dead-air-log.csv";

/// The ledger's header line.
pub const GAP_HEADER: &'static str =
    "unix_ts,dead_air_ms,chars,sentences,grab_ms,engine_wait_ms,first_synth_ms,first_audio_ms";

/// One take's dead-air breakdown, in milliseconds unless named otherwise.
#[derive(Clone, Copy, Debug, PartialEq, Eq, Structural)]
pub struct GapRow {
    /// Key press to first audible sample.
    pub dead_air_ms: u64,
    pub chars: usize,
    pub sentences: usize,
    pub grab_ms: u64,
    pub engine_wait_ms: u64,
    pub first_synth_ms: u64,
    /// Length of the first sentence's audio.
    pub first_audio_ms: u64,
}

/// Items joined by commas.
pub open spec fn csv_join(items: Seq<Seq<char>>) -> Seq<char>
    decreases items.len(),
{
    if items.len() == 0 {
        Seq::empty()
    } else if items.len() == 1 {
        items[0]
    } else {
        csv_join(items.drop_last()) + ","@ + items.last()
    }
}

/// The header's column names, in order.
pub open spec fn gap_columns() -> Seq<Seq<char>> {
    seq![
        "unix_ts"@,
        "dead_air_ms"@,
        "chars"@,
        "sentences"@,
        "grab_ms"@,
        "engine_wait_ms"@,
        "first_synth_ms"@,
        "first_audio_ms"@,
    ]
}

/// A row's values, in header order.
pub open spec fn gap_fields(stamp: u64, row: GapRow) -> Seq<nat> {
    seq![
        stamp as nat,
        row.dead_air_ms as nat,
        row.chars as nat,
        row.sentences as nat,
        row.grab_ms as nat,
        row.engine_wait_ms as nat,
        row.first_synth_ms as nat,
        row.first_audio_ms as nat,
    ]
}

/// A row's line: its values in decimal, joined by commas.
pub open spec fn spec_gap_line(stamp: u64, row: GapRow) -> Seq<char> {
    csv_join(gap_fields(stamp, row).map_values(|v: nat| decimal(v)))
}

/// The CSV line for one take, stamped with Unix seconds.
pub fn gap_csv_row(stamp: u64, row: &GapRow) -> (line: String)
    ensures
        line@ == spec_gap_line(stamp, *row),
        line@ == csv_join(
            seq![
                decimal(stamp as nat),
                decimal(row.dead_air_ms as nat),
                decimal(row.chars as nat),
                decimal(row.sentences as nat),
                decimal(row.grab_ms as nat),
                decimal(row.engine_wait_ms as nat),
                decimal(row.first_synth_ms as nat),
                decimal(row.first_audio_ms as nat),
            ],
        ),
{
    let mut fields: Vec<u64> = Vec::new();
    fields.push(stamp);
    fields.push(row.dead_air_ms);
    fields.push(row.chars as u64);
    fields.push(row.sentences as u64);
    fields.push(row.grab_ms);
    fields.push(row.engine_wait_ms);
    fields.push(row.first_synth_ms);
    fields.push(row.first_audio_ms);
    let ghost items = gap_fields(stamp, *row).map_values(|v: nat| decimal(v));
    assert(fields@.map_values(|v: u64| v as nat) =~= gap_fields(stamp, *row));
    let mut line = decimal_string(fields[0]);
    let mut i: usize = 1;
    while i < fields.len()
        invariant
            fields@.len() == 8,
            items.len() == 8,
            1 <= i <= 8,
            forall|j: int| 0 <= j < 8 ==> #[trigger] items[j] == decimal(fields@[j] as nat),
            line@ == csv_join(items.take(i as int)),
        decreases 8 - i,
    {
        proof {
            assert(items.take(i as int + 1).drop_last() =~= items.take(i as int));
        }
        line.append(",");
        let d = decimal_string(fields[i]);
        line.append(d.as_str());
        i = i + 1;
    }
    assert(items.take(8) =~= items);
    assert(items =~= seq![
        decimal(stamp as nat),
        decimal(row.dead_air_ms as nat),
        decimal(row.chars as nat),
        decimal(row.sentences as nat),
        decimal(row.grab_ms as nat),
        decimal(row.engine_wait_ms as nat),
        decimal(row.first_synth_ms as nat),
        decimal(row.first_audio_ms as nat),
    ]);
    line
}

/// Each value of a row sits under the column that names it: column 0 of
/// the header is the stamp, column 1 the dead air, and so on to the first
/// sentence's audio length in column 7.
pub proof fn gap_fields_follow_header_names(stamp: u64, row: GapRow)
    ensures
        gap_columns()[0] == "unix_ts"@ && gap_fields(stamp, row)[0] == stamp as nat,
        gap_columns()[1] == "dead_air_ms"@ && gap_fields(stamp, row)[1] == row.dead_air_ms as nat,
        gap_columns()[2] == "chars"@ && gap_fields(stamp, row)[2] == row.chars as nat,
        gap_columns()[3] == "sentences"@ && gap_fields(stamp, row)[3] == row.sentences as nat,
        gap_columns()[4] == "grab_ms"@ && gap_fields(stamp, row)[4] == row.grab_ms as nat,
        gap_columns()[5] == "engine_wait_ms"@ && gap_fields(stamp, row)[5] == row.engine_wait_ms as nat,
        gap_columns()[6] == "first_synth_ms"@ && gap_fields(stamp, row)[6] == row.first_synth_ms as nat,
        gap_columns()[7] == "first_audio_ms"@ && gap_fields(stamp, row)[7] == row.first_audio_ms as nat,
{
}

/// No comma ever appears inside a decimal rendering.
proof fn decimal_has_no_comma(n: nat)
    ensures
        !decimal(n).contains(','),
    decreases n,
{
    if n >= 10 {
        decimal_has_no_comma(n / 10);
        assert forall|i: int| 0 <= i < decimal(n).len() implies decimal(n)[i] != ',' by {
            if i < decimal(n / 10).len() {
                assert(decimal(n)[i] == decimal(n / 10)[i]);
            }
        }
    }
}

/// Every row lines up with the header: the header is its column names
/// joined by commas, a row is as many comma-free values joined the same
/// way, so each value lands under its column.
pub proof fn gap_row_matches_header(stamp: u64, row: GapRow)
    ensures
        GAP_HEADER@ == csv_join(gap_columns()),
        gap_fields(stamp, row).len() == gap_columns().len(),
        forall|i: int|
            0 <= i < gap_columns().len() ==> !(#[trigger] gap_columns()[i]).contains(','),
        forall|i: int|
            0 <= i < gap_fields(stamp, row).len() ==> !decimal(
                #[trigger] gap_fields(stamp, row)[i],
            ).contains(','),
{
    reveal_strlit("unix_ts,dead_air_ms,chars,sentences,grab_ms,engine_wait_ms,first_synth_ms,first_audio_ms");
    reveal_strlit(",");
    reveal_strlit("unix_ts");
    reveal_strlit("dead_air_ms");
    reveal_strlit("chars");
    reveal_strlit("sentences");
    reveal_strlit("grab_ms");
    reveal_strlit("engine_wait_ms");
    reveal_strlit("first_synth_ms");
    reveal_strlit("first_audio_ms");
    let cols = gap_columns();
    reveal_with_fuel(csv_join, 9);
    assert(cols.drop_last().drop_last().drop_last().drop_last().drop_last().drop_last().drop_last()
        =~= seq!["unix_ts"@]);
    assert(GAP_HEADER@ =~= csv_join(cols));
    assert forall|i: int| 0 <= i < cols.len() implies !(#[trigger] cols[i]).contains(',') by {
    }
    assert forall|i: int| 0 <= i < gap_fields(stamp, row).len() implies !decimal(
        #[trigger] gap_fields(stamp, row)[i],
    ).contains(',') by {
        decimal_has_no_comma(gap_fields(stamp, row)[i]);
    }
}

/// Whether `line`, already trimmed, is exactly the current header.
pub fn is_gap_header(line: &str) -> (is_header: bool)
    ensures
        is_header == (line@ == GAP_HEADER@),
{
    crate::text::str_eq(line, GAP_HEADER)
}

/// Whether a ledger's first line is the current header (surrounding
/// whitespace ignored).
pub fn header_is_current(first_line: &str) -> (current: bool)
    ensures
        current == (trimmed(first_line@) == GAP_HEADER@),
{
    let t = trim(first_line);
    is_gap_header(t)
}

/// What to do before appending a row.
#[derive(Clone, Copy, Debug, PartialEq, Eq, Structural)]
pub struct GapLogPlan {
    /// Move the existing file aside first (and skip the row if that fails).
    pub shelve_first: bool,
    /// Start the file with the header.
    pub write_header: bool,
}

/// The plan for a ledger whose first line is `first_line` (`None` when it
/// could not be opened for reading) and which `exists` or not: a foreign
/// header is shelved; the header is written whenever the file will not
/// exist when the row is appended (it was shelved, or it never existed),
/// and never into a file that stays.
pub fn gap_log_plan(first_line: Option<&str>, exists: bool) -> (plan: GapLogPlan)
    ensures
        plan.shelve_first == (first_line matches Some(l) && trimmed(l@) != GAP_HEADER@),
        plan.write_header == (plan.shelve_first || !exists),
{
    let shelve_first = match first_line {
        None => false,
        Some(l) => !header_is_current(l),
    };
    GapLogPlan { shelve_first, write_header: shelve_first || !exists }
}

/// The name an old-schema ledger is shelved under.
pub fn shelf_file_name(stamp: u64) -> (name: String)
    ensures
        name@ == "dead-air-log-old-"@ + decimal(stamp as nat) + ".csv"@,
{
    let mut name = String::from_str("dead-air-log-old-");
    let d = decimal_string(stamp);
    name.append(d.as_str());
    name.append(".csv");
    name
}

} // verus!
