use vstd::prelude::*;

verus! {

/// Number of entries of the sine table, one period of the sine.
pub const WAVE_SIN_SIZE: usize = 44100;

/// Sine wave read from a table of one period.
pub struct SineWave {}

/// Where a location of the wave falls, one period being `[0, 1)`.
pub enum TableLocation {
    /// Before the start of the period.
    Before,
    /// At or after the end of the period.
    After,
    /// Inside the period; the entry of the table at or just below the location.
    Inside(usize),
}

/// Which entries of the sine table give the value at a location.
#[derive(Clone, Copy, Debug, PartialEq, Eq, Structural)]
pub enum TableRead {
    /// The value of this entry, as it is.
    Entry(usize),
    /// A blend of these two consecutive entries, weighted by the fractional part of
    /// the location.
    Blend(usize, usize),
}

impl SineWave {
    /// Entries of the table read for `location`: the first entry before the period,
    /// the last one after it, and inside it the entry below the location blended
    /// with the next one, unless it is the last entry.
    pub fn table_read(&self, location: TableLocation) -> (r: TableRead)
        requires
            location matches TableLocation::Inside(i) ==> i < WAVE_SIN_SIZE,
        ensures
            r == match location {
                TableLocation::Before => TableRead::Entry(0),
                TableLocation::After => TableRead::Entry((WAVE_SIN_SIZE - 1) as usize),
                TableLocation::Inside(i) => if i + 1 < WAVE_SIN_SIZE {
                    TableRead::Blend(i, (i + 1) as usize)
                } else {
                    TableRead::Entry(i)
                },
            },
            match r {
                TableRead::Entry(i) => i < WAVE_SIN_SIZE,
                TableRead::Blend(i, j) => i < WAVE_SIN_SIZE && j < WAVE_SIN_SIZE,
            },
    {
        match location {
            TableLocation::Before => TableRead::Entry(0),
            TableLocation::After => TableRead::Entry(WAVE_SIN_SIZE - 1),
            TableLocation::Inside(i) => {
                let next = i + 1;
                if next < WAVE_SIN_SIZE {
                    TableRead::Blend(i, next)
                } else {
                    TableRead::Entry(i)
                }
            },
        }
    }
}

} // verus!
