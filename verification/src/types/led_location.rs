use crate::constants::COMMONS_SIZE;
use crate::constants::RAM_SIZE;
use crate::constants::ROWS_SIZE;
use crate::errors::ValidationError;
use vstd::prelude::*;

verus! {

/// The chip addressing conventions the coordinate codec supports.
///
/// The chip family has shipped both conventions, so the codec keeps the
/// choice as a value selected at construction time rather than fixing one.
#[derive(Clone, Copy, Debug, PartialEq, Eq, Structural)]
pub enum Layout {
    /// One byte-sized register per row; the bit within the register byte
    /// selects the common (column).
    RowAddressed,
    /// One 16-bit register per common, split over two consecutive
    /// device-visible byte slots (even offset = low byte, odd offset = high
    /// byte); the bit within the byte selects the row.
    CommonPacked,
}

/// A validated LED coordinate: a `(row, common)` pair with `row` below
/// [`ROWS_SIZE`] and `common` below [`COMMONS_SIZE`].
///
/// Both bounds are checked at construction, so an out-of-range coordinate
/// can never exist as a constructed `LedLocation`.
#[derive(Clone, Copy, Debug, Eq, Hash, Ord, PartialEq, PartialOrd)]
pub struct LedLocation {
    row: u8,
    common: u8,
}

/// The device RAM byte offset holding a coordinate in the common-addressed,
/// two-bytes-per-register layout: two byte slots per common, the odd slot
/// for rows 8 and above.
pub open spec fn spec_chip_offset(row: u8, common: u8) -> u8 {
    (2 * common + if row >= 8 { 1int } else { 0int }) as u8
}

/// Map a coordinate to its (register byte offset, bit index) pair under the
/// given layout.
pub open spec fn spec_resolve(layout: Layout, row: u8, common: u8) -> (u8, u8) {
    match layout {
        Layout::RowAddressed => (row, common),
        Layout::CommonPacked => (spec_chip_offset(row, common), (row % 8) as u8),
    }
}

/// Map a (register byte offset, bit index) pair back to the `(row, common)`
/// coordinate it denotes under the given layout. Exact inverse of
/// [`spec_resolve`] on valid coordinates.
pub open spec fn spec_locate(layout: Layout, offset: u8, bit: u8) -> (u8, u8) {
    match layout {
        Layout::RowAddressed => (offset, bit),
        Layout::CommonPacked => ((8 * (offset % 2) + bit) as u8, (offset / 2) as u8),
    }
}

impl LedLocation {
    /// The validated row index of this coordinate.
    pub closed spec fn spec_row(self) -> u8 {
        self.row
    }

    /// The validated common (column) index of this coordinate.
    pub closed spec fn spec_common(self) -> u8 {
        self.common
    }

    /// A constructed coordinate always lies within the device's bounds.
    pub open spec fn wf(self) -> bool {
        self.spec_row() < ROWS_SIZE as u8 && self.spec_common() < COMMONS_SIZE as u8
    }

    /// Create an `LedLocation` from the given `row` and `common` values.
    ///
    /// The values are validated against [`ROWS_SIZE`] and [`COMMONS_SIZE`];
    /// a value at or above its (exclusive) bound is rejected with
    /// [`ValidationError::ValueTooLarge`], the row being checked first.
    pub fn new(row: u8, common: u8) -> (result: Result<Self, ValidationError>)
        ensures
            (row < ROWS_SIZE as u8 && common < COMMONS_SIZE as u8) <==> result is Ok,
            result matches Ok(location) ==> location.spec_row() == row
                && location.spec_common() == common && location.wf(),
            row >= ROWS_SIZE as u8 ==> (result matches Err(
                ValidationError::ValueTooLarge { name, value, limit, inclusive },
            ) && name@ == "row"@ && value == row && limit == ROWS_SIZE as u8 && !inclusive),
            row < ROWS_SIZE as u8 && common >= COMMONS_SIZE as u8 ==> (result matches Err(
                ValidationError::ValueTooLarge { name, value, limit, inclusive },
            ) && name@ == "common"@ && value == common && limit == COMMONS_SIZE as u8
                && !inclusive),
    {
        if row >= ROWS_SIZE as u8 {
            return Err(ValidationError::ValueTooLarge {
                name: "row",
                value: row,
                limit: ROWS_SIZE as u8,
                inclusive: false,
            });
        }

        if common >= COMMONS_SIZE as u8 {
            return Err(ValidationError::ValueTooLarge {
                name: "common",
                value: common,
                limit: COMMONS_SIZE as u8,
                inclusive: false,
            });
        }

        Ok(LedLocation { row, common })
    }

    /// The row selector: the single 16-bit mask with only this coordinate's
    /// row bit set.
    pub fn row(self) -> (mask: u16)
        requires
            self.wf(),
        ensures
            mask == (1u16 << (self.spec_row() as u16)),
    {
        1u16 << (self.row as u16)
    }

    /// The common (register) address of this coordinate.
    pub fn common(self) -> (common: u8)
        ensures
            common == self.spec_common(),
    {
        self.common
    }

    /// The common address as an index into the display buffer.
    pub fn common_as_index(self) -> (index: usize)
        ensures
            index == self.spec_common() as usize,
    {
        self.common as usize
    }

    /// The device RAM byte offset of this coordinate under the
    /// common-addressed, two-bytes-per-register layout.
    pub fn common_as_index_on_chip(self) -> (offset: u8)
        requires
            self.wf(),
        ensures
            offset == spec_chip_offset(self.spec_row(), self.spec_common()),
            offset < RAM_SIZE as u8,
    {
        self.common * 2 + if self.row >= 8 { 1 } else { 0 }
    }

    /// Map this coordinate to its (register byte offset, bit index) pair
    /// under the given layout. Pure; cannot fail on a constructed
    /// coordinate.
    pub fn resolve(self, layout: Layout) -> (resolved: (u8, u8))
        requires
            self.wf(),
        ensures
            resolved == spec_resolve(layout, self.spec_row(), self.spec_common()),
            resolved.0 < RAM_SIZE as u8,
            resolved.1 < 8,
    {
        match layout {
            Layout::RowAddressed => (self.row, self.common),
            Layout::CommonPacked => (
                self.common * 2 + if self.row >= 8 { 1 } else { 0 },
                self.row % 8,
            ),
        }
    }

    /// Map a (register byte offset, bit index) pair back to the coordinate
    /// it denotes under the given layout. Exact inverse of [`Self::resolve`].
    pub fn locate(layout: Layout, offset: u8, bit: u8) -> (location: Self)
        requires
            offset < RAM_SIZE as u8,
            bit < 8,
        ensures
            (location.spec_row(), location.spec_common()) == spec_locate(layout, offset, bit),
            location.wf(),
    {
        match layout {
            Layout::RowAddressed => LedLocation { row: offset, common: bit },
            Layout::CommonPacked => LedLocation {
                row: 8 * (offset % 2) + bit,
                common: offset / 2,
            },
        }
    }
}

impl Default for LedLocation {
    /// The coordinate of the first LED: row 0, common 0.
    fn default() -> (location: Self)
        ensures
            location.spec_row() == 0 && location.spec_common() == 0 && location.wf(),
    {
        LedLocation { row: 0, common: 0 }
    }
}

/// Law: resolving a valid coordinate and then locating the result returns
/// the original coordinate, in both addressing conventions.
pub proof fn lemma_resolve_locate_roundtrip(layout: Layout, row: u8, common: u8)
    requires
        row < ROWS_SIZE as u8,
        common < COMMONS_SIZE as u8,
    ensures
        spec_locate(
            layout,
            spec_resolve(layout, row, common).0,
            spec_resolve(layout, row, common).1,
        ) == (row, common),
{
}

/// Law: resolving the coordinate located at a valid (register byte offset,
/// bit index) pair returns that same pair, in both addressing conventions;
/// together with [`lemma_resolve_locate_roundtrip`] the mapping is a
/// bijection.
pub proof fn lemma_locate_resolve_roundtrip(layout: Layout, offset: u8, bit: u8)
    requires
        offset < RAM_SIZE as u8,
        bit < 8,
    ensures
        spec_resolve(
            layout,
            spec_locate(layout, offset, bit).0,
            spec_locate(layout, offset, bit).1,
        ) == (offset, bit),
{
}

} // verus!
