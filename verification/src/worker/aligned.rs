//! Reading a device back in whole sectors, whatever range is asked for.
//!
//! A device that is opened without the system's cache can only be read in whole sectors from
//! sector boundaries. The reader plans such a transfer around the wanted bytes and cuts them out
//! of what the device gave.

use vstd::arithmetic::div_mod;
use vstd::prelude::*;
use vstd::string::*;

use crate::drives::linux::SECTOR_SIZE;
use crate::drives::windows;
use crate::drives::windows::valid_sector_geometry;

verus! {

broadcast use vstd::seq_lib::group_seq_properties;

/// The most bytes that one read hands out.
pub const VERIFICATION_BUFFER_SIZE: usize = 1_048_576;

/// The boundary that memory for a direct transfer starts at on Linux.
pub const DIRECT_ALIGNMENT: usize = 4096;

/// The system whose device is read.
#[derive(Clone, Copy, Debug, PartialEq, Eq, Structural)]
pub enum DeviceKind {
    /// A Linux block device.
    Linux,
    /// A Windows physical disk.
    Windows,
}

/// A transfer in whole sectors, and the wanted bytes in it.
#[derive(Clone, Copy, Debug, PartialEq, Eq)]
pub struct ReadWindow {
    /// Where on the device the transfer starts.
    pub start: u64,
    /// How many bytes it moves at most.
    pub length: usize,
    /// How many of them stand before the wanted ones.
    pub prefix: usize,
    /// How many bytes are wanted.
    pub available: usize,
}

/// Where to set the reader.
#[derive(Clone, Copy, Debug, PartialEq, Eq)]
pub enum SeekPosition {
    /// This many bytes behind the start of the device.
    Start(u64),
    /// This many bytes behind the present position.
    Current(i64),
    /// This many bytes behind the end of the device.
    End(i64),
}

/// The state of a reader.
pub struct AlignedState {
    pub kind: DeviceKind,
    pub position: int,
    pub capacity: int,
    pub sector: int,
}

/// The least multiple of `sector` that is no less than `n`.
pub open spec fn rounded_up(n: int, sector: int) -> int {
    if n % sector == 0 {
        n
    } else {
        n - n % sector + sector
    }
}

/// The smaller of two numbers.
pub open spec fn smaller(a: int, b: int) -> int {
    if a < b {
        a
    } else {
        b
    }
}

impl AlignedState {
    /// What a reader always keeps.
    pub open spec fn well_formed(self) -> bool {
        &&& 0 < self.sector <= 65536
        &&& VERIFICATION_BUFFER_SIZE as int % self.sector == 0
        &&& self.capacity % self.sector == 0
        &&& 0 <= self.position <= self.capacity <= u64::MAX
    }

    /// How many bytes a read of `requested` bytes wants: no more than a buffer, and none behind the
    /// end of the device.
    pub open spec fn wanted(self, requested: int) -> int {
        smaller(self.capacity - self.position, smaller(requested, VERIFICATION_BUFFER_SIZE as int))
    }

    /// Whether a transfer is the one around the wanted bytes.
    pub open spec fn is_window(self, requested: int, window: ReadWindow) -> bool {
        &&& window.prefix == self.position % self.sector
        &&& window.start == self.position - window.prefix
        &&& window.available == self.wanted(requested)
        &&& window.length == rounded_up(window.prefix + window.available, self.sector)
    }

    /// How many bytes a transfer of `count` bytes hands out.
    pub open spec fn copied(self, window: ReadWindow, count: int) -> int {
        if count == 0 {
            0
        } else {
            smaller(window.available as int, count - window.prefix)
        }
    }

    /// Whether a device may not end a transfer after `count` bytes: within a sector, or before the
    /// wanted bytes.
    pub open spec fn is_incomplete(self, window: ReadWindow, count: int) -> bool {
        count > 0 && (count % self.sector != 0 || count <= window.prefix)
    }

    /// Where a seek leads.
    pub open spec fn seek_target(self, position: SeekPosition) -> int {
        match position {
            SeekPosition::Start(offset) => offset as int,
            SeekPosition::Current(offset) => self.position + offset,
            SeekPosition::End(offset) => self.capacity + offset,
        }
    }
}

/// The wanted bytes of a transfer.
pub open spec fn cut_out(window: ReadWindow, data: Seq<u8>, copied: int) -> Seq<u8> {
    if data.len() == 0 {
        Seq::empty()
    } else {
        data.subrange(window.prefix as int, window.prefix + copied)
    }
}

/// The error for a transfer that ended within a sector.
pub open spec fn incomplete_text(kind: DeviceKind) -> Seq<char> {
    match kind {
        DeviceKind::Linux => "Linux returned an incomplete direct disk sector"@,
        DeviceKind::Windows => "Windows returned an incomplete unbuffered disk sector"@,
    }
}

/// The error for a seek that leads off the device.
pub open spec fn outside_text(kind: DeviceKind) -> Seq<char> {
    match kind {
        DeviceKind::Linux => "Linux verification seek is outside the physical disk"@,
        DeviceKind::Windows => "Windows verification seek is outside the physical disk"@,
    }
}

proof fn rounding_bounds(n: int, sector: int, limit: int)
    requires
        n >= 0,
        sector > 0,
        limit >= n,
        limit % sector == 0,
    ensures
        rounded_up(n, sector) % sector == 0,
        n <= rounded_up(n, sector) <= limit,
{
    div_mod::lemma_mod_bound(n, sector);
    div_mod::lemma_fundamental_div_mod(n, sector);
    div_mod::lemma_fundamental_div_mod(limit, sector);
    let q = n / sector;
    let r = n % sector;
    let top = limit / sector;
    if r != 0 {
        assert(sector * q + sector == sector * (q + 1)) by (nonlinear_arith);
        assert(sector * (q + 1) == (q + 1) * sector) by (nonlinear_arith);
        assert((sector * (q + 1)) % sector == 0) by {
            div_mod::lemma_fundamental_div_mod_converse(sector * (q + 1), sector, q + 1, 0);
        }
        assert(q + 1 <= top) by (nonlinear_arith)
            requires
                sector > 0,
                0 < r,
                sector * q + r <= sector * top,
        ;
        assert(sector * (q + 1) <= sector * top) by (nonlinear_arith)
            requires
                sector > 0,
                q + 1 <= top,
        ;
    }
}

proof fn multiple_of_sector(a: int, b: int, sector: int)
    requires
        sector > 0,
        a % sector == 0,
        b % sector == 0,
    ensures
        (a + b) % sector == 0,
        (a - b) % sector == 0,
{
    div_mod::lemma_fundamental_div_mod(a, sector);
    div_mod::lemma_fundamental_div_mod(b, sector);
    let x = a / sector;
    let y = b / sector;
    assert(sector * x + sector * y == (x + y) * sector) by (nonlinear_arith);
    assert(sector * x - sector * y == (x - y) * sector) by (nonlinear_arith);
    div_mod::lemma_fundamental_div_mod_converse(a + b, sector, x + y, 0);
    div_mod::lemma_fundamental_div_mod_converse(a - b, sector, x - y, 0);
}

proof fn whole_sectors_before(position: int, sector: int)
    requires
        sector > 0,
        position >= 0,
    ensures
        0 <= position % sector < sector,
        (position - position % sector) % sector == 0,
        position % sector <= position,
{
    div_mod::lemma_mod_bound(position, sector);
    div_mod::lemma_fundamental_div_mod(position, sector);
    let q = position / sector;
    assert(q >= 0) by (nonlinear_arith)
        requires
            sector > 0,
            position >= 0,
            position == sector * q + position % sector,
            position % sector < sector,
    ;
    assert(sector * q >= 0) by (nonlinear_arith)
        requires
            sector > 0,
            q >= 0,
    ;
    assert(sector * q == q * sector) by (nonlinear_arith);
    div_mod::lemma_fundamental_div_mod_converse(sector * q, sector, q, 0);
}

/// Every planned transfer starts and ends on a sector boundary, lies on the device and fits the
/// buffer, which is one sector longer than the most that is wanted; and the wanted bytes lie in it.
pub proof fn window_is_aligned(state: AlignedState, requested: int, window: ReadWindow)
    requires
        state.well_formed(),
        requested > 0,
        state.position < state.capacity,
        state.is_window(requested, window),
    ensures
        window.start as int % state.sector == 0,
        window.length as int % state.sector == 0,
        window.start + window.length <= state.capacity,
        window.length <= VERIFICATION_BUFFER_SIZE + state.sector,
        window.start <= state.position,
        state.position + window.available <= window.start + window.length,
        window.available > 0,
        window.length > window.prefix,
{
    planned_lengths(state, requested);
}

proof fn planned_lengths(state: AlignedState, requested: int)
    requires
        state.well_formed(),
        requested > 0,
        state.position < state.capacity,
    ensures
        ({
            let prefix = state.position % state.sector;
            let start = state.position - prefix;
            let available = state.wanted(requested);
            let length = rounded_up(prefix + available, state.sector);
            &&& 0 <= prefix < state.sector
            &&& 0 <= start <= state.position
            &&& start % state.sector == 0
            &&& length % state.sector == 0
            &&& start + length <= state.capacity
            &&& length <= VERIFICATION_BUFFER_SIZE + state.sector
            &&& 0 < available <= VERIFICATION_BUFFER_SIZE
            &&& prefix + available <= length
        }),
{
    let sector = state.sector;
    whole_sectors_before(state.position, sector);
    let prefix = state.position % sector;
    let start = state.position - prefix;
    let available = state.wanted(requested);
    multiple_of_sector(state.capacity, start, sector);
    rounding_bounds(prefix + available, sector, state.capacity - start);
    div_mod::lemma_fundamental_div_mod_converse(sector, sector, 1, 0);
    multiple_of_sector(VERIFICATION_BUFFER_SIZE as int, sector, sector);
    rounding_bounds(prefix + available, sector, VERIFICATION_BUFFER_SIZE + sector);
}

/// Reads a device back in whole sectors.
#[derive(Debug)]
pub struct AlignedReader {
    kind: DeviceKind,
    position: u64,
    capacity: u64,
    sector: u64,
}

impl View for AlignedReader {
    type V = AlignedState;

    closed spec fn view(&self) -> AlignedState {
        AlignedState {
            kind: self.kind,
            position: self.position as int,
            capacity: self.capacity as int,
            sector: self.sector as int,
        }
    }
}

impl AlignedReader {
    /// A reader of a Linux block device, which has to be a whole number of kernel sectors long.
    pub fn direct(capacity: u64) -> (result: Result<AlignedReader, String>)
        ensures
            match result {
                Ok(reader) => {
                    &&& capacity != 0
                    &&& capacity % SECTOR_SIZE == 0
                    &&& reader@.well_formed()
                    &&& reader@ == (AlignedState {
                        kind: DeviceKind::Linux,
                        position: 0,
                        capacity: capacity as int,
                        sector: SECTOR_SIZE as int,
                    })
                },
                Err(reason) => {
                    &&& capacity == 0 || capacity % SECTOR_SIZE != 0
                    &&& reason@ == "unsupported Linux block-device geometry"@
                },
            },
    {
        if capacity == 0 || capacity % SECTOR_SIZE != 0 {
            return Err("unsupported Linux block-device geometry".to_owned());
        }
        Ok(
            AlignedReader {
                kind: DeviceKind::Linux,
                position: 0,
                capacity,
                sector: SECTOR_SIZE,
            },
        )
    }

    /// A reader of a Windows physical disk with this geometry.
    pub fn unbuffered(capacity: u64, logical_sector_size: u32, physical_sector_size: u32) -> (
        result: Result<AlignedReader, String>)
        ensures
            match result {
                Ok(reader) => {
                    &&& windows::is_sector_geometry(
                        capacity,
                        logical_sector_size,
                        physical_sector_size,
                    )
                    &&& reader@.well_formed()
                    &&& reader@ == (AlignedState {
                        kind: DeviceKind::Windows,
                        position: 0,
                        capacity: capacity as int,
                        sector: logical_sector_size as int,
                    })
                },
                Err(reason) => {
                    &&& !windows::is_sector_geometry(
                        capacity,
                        logical_sector_size,
                        physical_sector_size,
                    )
                    &&& reason@ == "unsupported Windows disk sector geometry"@
                },
            },
    {
        if !valid_sector_geometry(capacity, logical_sector_size, physical_sector_size) {
            return Err("unsupported Windows disk sector geometry".to_owned());
        }
        Ok(
            AlignedReader {
                kind: DeviceKind::Windows,
                position: 0,
                capacity,
                sector: logical_sector_size as u64,
            },
        )
    }

    /// The transfer for a read of up to `requested` bytes; none where nothing is left or asked for.
    pub fn plan(&self, requested: usize) -> (window: Option<ReadWindow>)
        requires
            self@.well_formed(),
        ensures
            match window {
                Some(window) => requested > 0 && self@.position < self@.capacity
                    && self@.is_window(requested as int, window),
                None => requested == 0 || self@.position == self@.capacity,
            },
    {
        if requested == 0 || self.position >= self.capacity {
            return None;
        }
        proof {
            planned_lengths(self@, requested as int);
        }
        let bounded: usize = if requested < VERIFICATION_BUFFER_SIZE {
            requested
        } else {
            VERIFICATION_BUFFER_SIZE
        };
        let left: u64 = self.capacity - self.position;
        let available: u64 = if left < bounded as u64 {
            left
        } else {
            bounded as u64
        };
        let prefix: u64 = self.position % self.sector;
        let needed: u64 = prefix + available;
        let over: u64 = needed % self.sector;
        proof {
            whole_sectors_before(needed as int, self.sector as int);
        }
        let length: u64 = if over == 0 {
            needed
        } else {
            needed - over + self.sector
        };
        Some(
            ReadWindow {
                start: self.position - prefix,
                length: length as usize,
                prefix: prefix as usize,
                available: available as usize,
            },
        )
    }

    /// Cut the wanted bytes out of what a transfer gave, and move on behind them.
    pub fn take(&mut self, requested: usize, window: ReadWindow, data: &[u8]) -> (result: Result<
        Vec<u8>,
        String,
    >)
        requires
            old(self)@.well_formed(),
            requested > 0,
            old(self)@.position < old(self)@.capacity,
            old(self)@.is_window(requested as int, window),
            data@.len() <= window.length,
        ensures
            final(self)@.well_formed(),
            match result {
                Ok(bytes) => {
                    let copied = old(self)@.copied(window, data@.len() as int);
                    &&& !old(self)@.is_incomplete(window, data@.len() as int)
                    &&& bytes@ == cut_out(window, data@, copied)
                    &&& final(self)@ == (AlignedState {
                        position: old(self)@.position + copied,
                        ..old(self)@
                    })
                },
                Err(reason) => {
                    &&& old(self)@.is_incomplete(window, data@.len() as int)
                    &&& reason@ == incomplete_text(old(self)@.kind)
                    &&& final(self)@ == old(self)@
                },
            },
    {
        proof {
            window_is_aligned(self@, requested as int, window);
        }
        let count: usize = data.len();
        if count == 0 {
            return Ok(Vec::new());
        }
        if count as u64 % self.sector != 0 || count <= window.prefix {
            let reason = match self.kind {
                DeviceKind::Linux => "Linux returned an incomplete direct disk sector",
                DeviceKind::Windows => "Windows returned an incomplete unbuffered disk sector",
            };
            return Err(reason.to_owned());
        }
        let beyond: usize = count - window.prefix;
        let copied: usize = if window.available < beyond {
            window.available
        } else {
            beyond
        };
        let mut bytes: Vec<u8> = Vec::new();
        let mut index: usize = 0;
        while index < copied
            invariant
                index <= copied,
                window.prefix + copied <= count,
                count == data@.len(),
                bytes@ == data@.subrange(window.prefix as int, window.prefix + index),
            decreases copied - index,
        {
            bytes.push(data[window.prefix + index]);
            assert(data@.subrange(window.prefix as int, window.prefix + index + 1) =~= data@.subrange(
                window.prefix as int,
                window.prefix + index,
            ).push(data@[window.prefix + index]));
            index += 1;
        }
        self.position = self.position + copied as u64;
        Ok(bytes)
    }

    /// Set the reader to another position on the device.
    pub fn seek(&mut self, position: SeekPosition) -> (result: Result<u64, String>)
        requires
            old(self)@.well_formed(),
        ensures
            final(self)@.well_formed(),
            match result {
                Ok(next) => {
                    &&& next == old(self)@.seek_target(position)
                    &&& next <= old(self)@.capacity
                    &&& final(self)@ == (AlignedState { position: next as int, ..old(self)@ })
                },
                Err(reason) => {
                    &&& !(0 <= old(self)@.seek_target(position) <= old(self)@.capacity)
                    &&& reason@ == outside_text(old(self)@.kind)
                    &&& final(self)@ == old(self)@
                },
            },
    {
        let next: i128 = match position {
            SeekPosition::Start(offset) => offset as i128,
            SeekPosition::Current(offset) => self.position as i128 + offset as i128,
            SeekPosition::End(offset) => self.capacity as i128 + offset as i128,
        };
        if next < 0 || next > self.capacity as i128 {
            let reason = match self.kind {
                DeviceKind::Linux => "Linux verification seek is outside the physical disk",
                DeviceKind::Windows => "Windows verification seek is outside the physical disk",
            };
            return Err(reason.to_owned());
        }
        self.position = next as u64;
        Ok(self.position)
    }
}

/// A read hands out exactly what the device holds at the reader's position: where a transfer gave
/// the bytes of the device from the planned start on, the bytes cut out of it are those of the
/// device from the position on.
pub proof fn aligned_read_hands_out_the_device(
    device: Seq<u8>,
    state: AlignedState,
    requested: int,
    window: ReadWindow,
    count: int,
)
    requires
        state.well_formed(),
        device.len() == state.capacity,
        requested > 0,
        state.position < state.capacity,
        state.is_window(requested, window),
        0 < count <= window.length,
        !state.is_incomplete(window, count),
    ensures
        ({
            let data = device.subrange(window.start as int, window.start + count);
            let copied = state.copied(window, count);
            &&& 0 < copied <= requested
            &&& cut_out(window, data, copied) == device.subrange(
                state.position,
                state.position + copied,
            )
        }),
{
    window_is_aligned(state, requested, window);
    let data = device.subrange(window.start as int, window.start + count);
    let copied = state.copied(window, count);
    assert(data.subrange(window.prefix as int, window.prefix + copied) =~= device.subrange(
        state.position,
        state.position + copied,
    ));
}

/// A read wants as many bytes as are asked for, unless that is more than a buffer or than the device
/// has left; and a transfer that the device completes hands out all of them.
pub proof fn completed_transfer_hands_out_all_that_is_wanted(
    state: AlignedState,
    requested: int,
    window: ReadWindow,
)
    requires
        state.well_formed(),
        requested > 0,
        state.position < state.capacity,
        state.is_window(requested, window),
    ensures
        ({
            let wanted = state.wanted(requested);
            &&& 0 < wanted <= requested && wanted <= 1_048_576 && state.position + wanted
                <= state.capacity
            &&& wanted == requested || wanted == 1_048_576 || state.position + wanted
                == state.capacity
            &&& window.available == wanted
            &&& !state.is_incomplete(window, window.length as int)
            &&& state.copied(window, window.length as int) == wanted
            &&& state.copied(window, 0) == 0
        }),
{
    window_is_aligned(state, requested, window);
}

/// A transfer is refused exactly where the device ended it within a sector, or before the first of
/// the wanted bytes; the end of the device is no such fault.
pub proof fn broken_transfer_is_refused(state: AlignedState, window: ReadWindow, count: int)
    requires
        state.well_formed(),
        count >= 0,
    ensures
        state.is_incomplete(window, count) <==> count > 0 && (count % state.sector != 0 || count
            <= window.prefix),
        !state.is_incomplete(window, 0),
{
}

/// A seek leads where it says: from the start, from the present position, or from the end; the three
/// ways to name a position agree.
pub proof fn positions_can_be_named_in_three_ways(
    state: AlignedState,
    offset: u64,
    ahead: i64,
    behind: i64,
)
    requires
        offset == state.position + ahead,
        offset == state.capacity + behind,
    ensures
        state.seek_target(SeekPosition::Start(offset)) == offset,
        state.seek_target(SeekPosition::Current(ahead)) == offset,
        state.seek_target(SeekPosition::End(behind)) == offset,
{
}

} // verus!
