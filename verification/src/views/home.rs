//! The home page: for the last metrics snapshot, one row for each core and
//! one for the memory, each a line of text and the fill of a bar.

use vstd::prelude::*;
use vstd::string::StringExecFns;
use crate::decimal::{decimal, hundredths_text, push_decimal, push_hundredths};

verus! {

/// A usage of 100%, in hundredths of a percent.
pub const FULL_USAGE: u32 = 10000;

/// The readings of one refresh: the usage of each core, in hundredths of a
/// percent and in the order in which the host lists its cores, and the
/// memory in use and in all, in bytes.
#[derive(Debug, Clone, PartialEq, Eq)]
pub struct MetricsSnapshot {
    pub cpu_usage: Vec<u32>,
    pub used_memory: u64,
    pub total_memory: u64,
}

/// The row of one core.
#[derive(Debug, Clone, PartialEq, Eq)]
pub struct CpuRow {
    /// The line of text.
    pub label: String,
    /// The fill of the bar, in hundredths of a percent: at most `FULL_USAGE`.
    pub indicator: u32,
}

/// The row of the memory.
#[derive(Debug, Clone, PartialEq, Eq)]
pub struct MemoryRow {
    /// The line of text.
    pub label: String,
    /// The fill of the bar, in bytes: at most `total`.
    pub filled: u64,
    /// The length of the bar, in bytes.
    pub total: u64,
}

/// What the home page shows.
#[derive(Debug, Clone, PartialEq, Eq)]
pub struct HomePageView {
    /// The rows of the cores, in the snapshot's order.
    pub cpu_rows: Vec<CpuRow>,
    /// The row of the memory.
    pub memory: MemoryRow,
}

/// A `CpuRow` with its text as a sequence of characters.
pub struct CpuRowView {
    pub label: Seq<char>,
    pub indicator: u32,
}

/// A `MemoryRow` with its text as a sequence of characters.
pub struct MemoryRowView {
    pub label: Seq<char>,
    pub filled: u64,
    pub total: u64,
}

impl View for CpuRow {
    type V = CpuRowView;

    open spec fn view(&self) -> CpuRowView {
        CpuRowView { label: self.label@, indicator: self.indicator }
    }
}

impl View for MemoryRow {
    type V = MemoryRowView;

    open spec fn view(&self) -> MemoryRowView {
        MemoryRowView { label: self.label@, filled: self.filled, total: self.total }
    }
}

/// The line of one core: its number, then its usage with two decimal places,
/// six characters wide as long as the usage is below 1000%.
pub open spec fn cpu_row_text(cpu_num: nat, hundredths: nat) -> Seq<char> {
    "CPU "@ + decimal(cpu_num) + ": "@ + hundredths_text(hundredths) + "%"@
}

/// The row of one core: its line, and a bar that is full from 100% on.
pub open spec fn cpu_row(cpu_num: nat, hundredths: u32) -> CpuRowView {
    CpuRowView {
        label: cpu_row_text(cpu_num, hundredths as nat),
        indicator: if hundredths > FULL_USAGE {
            FULL_USAGE
        } else {
            hundredths
        },
    }
}

/// The memory line, made of the two sizes as they are shown.
pub open spec fn memory_text(used: Seq<char>, total: Seq<char>) -> Seq<char> {
    "Memory: "@ + used + " / "@ + total
}

/// Whether `text` can be how a size of `bytes` bytes is shown. Below 1000
/// bytes that is the count and the unit; from there on the scaling is the
/// `bytesize` crate's, of which nothing is claimed.
pub open spec fn shows_size(text: Seq<char>, bytes: u64) -> bool {
    bytes < 1000 ==> text == decimal(bytes as nat) + " B"@
}

/// Whether `row` can be the memory row for these two sizes: the bar is as
/// long as all memory and filled by the memory in use, and the line is made
/// of the two sizes as they can be shown.
pub open spec fn shows_memory(row: MemoryRowView, used: u64, total: u64) -> bool {
    &&& row.total == total
    &&& row.filled == if used > total {
        total
    } else {
        used
    }
    &&& exists|u: Seq<char>, t: Seq<char>|
        shows_size(u, used) && shows_size(t, total) && row.label == #[trigger] memory_text(u, t)
}

/// Shows a size through `Display` of `bytesize::ByteSize`.
///
/// Trusted: a size below 1000 bytes is shown as its count in decimal, a
/// space and `B`. Larger sizes are scaled with floating point, and nothing
/// is claimed of them.
#[verifier::external_body]
fn human_size(bytes: u64) -> (text: String)
    ensures
        shows_size(text@, bytes),
{
    bytesize::ByteSize(bytes).to_string()
}

/// The row of one core.
pub fn cpu_usage_row(cpu_num: usize, hundredths: u32) -> (row: CpuRow)
    ensures
        row@ == cpu_row(cpu_num as nat, hundredths),
        row.indicator <= FULL_USAGE,
{
    let mut label = String::new();
    label.append("CPU ");
    push_decimal(&mut label, cpu_num as u64);
    label.append(": ");
    push_hundredths(&mut label, hundredths as u64);
    label.append("%");
    assert(label@ =~= cpu_row_text(cpu_num as nat, hundredths as nat));
    let indicator: u32 = if hundredths > FULL_USAGE {
        FULL_USAGE
    } else {
        hundredths
    };
    CpuRow { label, indicator }
}

/// The memory line, from the two sizes as they are shown.
pub fn memory_line(used: &str, total: &str) -> (line: String)
    ensures
        line@ == memory_text(used@, total@),
{
    let mut line = String::new();
    line.append("Memory: ");
    line.append(used);
    line.append(" / ");
    line.append(total);
    assert(line@ =~= memory_text(used@, total@));
    line
}

impl MetricsSnapshot {
    /// A snapshot with no cores and no memory, as before the first refresh.
    pub fn empty() -> (snapshot: MetricsSnapshot)
        ensures
            snapshot.cpu_usage@.len() == 0,
            snapshot.used_memory == 0,
            snapshot.total_memory == 0,
    {
        MetricsSnapshot { cpu_usage: Vec::new(), used_memory: 0, total_memory: 0 }
    }

    /// The rows of all cores, in the snapshot's order.
    pub fn cpu_usage_panel(&self) -> (rows: Vec<CpuRow>)
        ensures
            rows@.len() == self.cpu_usage@.len(),
            forall|i: int|
                0 <= i < rows@.len() ==> (#[trigger] rows@[i])@ == cpu_row(
                    i as nat,
                    self.cpu_usage@[i],
                ),
    {
        let mut rows: Vec<CpuRow> = Vec::new();
        let mut i: usize = 0;
        while i < self.cpu_usage.len()
            invariant
                i <= self.cpu_usage@.len(),
                rows@.len() == i,
                forall|j: int|
                    0 <= j < i ==> (#[trigger] rows@[j])@ == cpu_row(j as nat, self.cpu_usage@[j]),
            decreases self.cpu_usage@.len() - i,
        {
            rows.push(cpu_usage_row(i, self.cpu_usage[i]));
            i += 1;
        }
        rows
    }

    /// The row of the memory: the memory in use and the total, each as the
    /// `bytesize` crate shows it, and a bar filled by the memory in use.
    pub fn memory_usage_element(&self) -> (row: MemoryRow)
        ensures
            shows_memory(row@, self.used_memory, self.total_memory),
            row.filled <= row.total,
    {
        let used = human_size(self.used_memory);
        let total = human_size(self.total_memory);
        let label = memory_line(used.as_str(), total.as_str());
        assert(label@ == memory_text(used@, total@));
        let filled: u64 = if self.used_memory > self.total_memory {
            self.total_memory
        } else {
            self.used_memory
        };
        MemoryRow { label, filled, total: self.total_memory }
    }

    /// What the home page shows for this snapshot.
    pub fn home_page_view(&self) -> (view: HomePageView)
        ensures
            view.cpu_rows@.len() == self.cpu_usage@.len(),
            forall|i: int|
                0 <= i < view.cpu_rows@.len() ==> (#[trigger] view.cpu_rows@[i])@ == cpu_row(
                    i as nat,
                    self.cpu_usage@[i],
                ),
            shows_memory(view.memory@, self.used_memory, self.total_memory),
    {
        HomePageView { cpu_rows: self.cpu_usage_panel(), memory: self.memory_usage_element() }
    }
}

} // verus!
