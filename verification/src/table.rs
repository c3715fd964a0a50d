use vstd::prelude::*;
use vstd::string::StringExecFns;
use crate::device::{Device, DeviceView};
use crate::text::{pad_right, padded, runtime_suffix, runtime_suffix_of};

verus! {

/// Width of the name column.
pub const NAME_WIDTH: usize = 30;

/// Width of the runtime column in the selection menu.
pub const MENU_RUNTIME_WIDTH: usize = 15;

/// Width of the state column in the selection menu.
pub const STATE_WIDTH: usize = 10;

/// Width of the runtime column in the final listing.
pub const LISTING_RUNTIME_WIDTH: usize = 10;

/// A row of the selection menu: name, displayed runtime and state in columns
/// of 30, 15 and 10 characters, then the size, each separated by one space.
pub open spec fn menu_row_text(device: DeviceView, size: Seq<char>) -> Seq<char> {
    padded(device.name, 30) + seq![' '] + padded(runtime_suffix(device.runtime), 15) + seq![' ']
        + padded(device.state, 10) + seq![' '] + size
}

/// A row of the final listing: name and displayed runtime in columns of 30
/// and 10 characters, then the size, each separated by one space.
pub open spec fn listing_row_text(device: DeviceView, size: Seq<char>) -> Seq<char> {
    padded(device.name, 30) + seq![' '] + padded(runtime_suffix(device.runtime), 10) + seq![' ']
        + size
}

/// The line printed before a device is deleted or created: two spaces, the
/// name, the displayed runtime in square brackets, and three dots.
pub open spec fn progress_line_text(device: DeviceView) -> Seq<char> {
    seq![' ', ' '] + device.name + seq![' ', '['] + runtime_suffix(device.runtime) + seq![
        ']',
        '.',
        '.',
        '.',
    ]
}

/// Formats one row of the selection menu.
pub fn menu_row(device: &Device, size: &str) -> (row: String)
    ensures
        row@ == menu_row_text(device@, size@),
{
    proof {
        reveal_strlit(" ");
        assert(" "@ =~= seq![' ']);
    }
    let suffix = runtime_suffix_of(device.runtime.as_str());
    let mut row = pad_right(device.name.as_str(), NAME_WIDTH);
    row.append(" ");
    let runtime_cell = pad_right(suffix.as_str(), MENU_RUNTIME_WIDTH);
    row.append(runtime_cell.as_str());
    row.append(" ");
    let state_cell = pad_right(device.state.as_str(), STATE_WIDTH);
    row.append(state_cell.as_str());
    row.append(" ");
    row.append(size);
    row
}

/// Formats one row of the final listing.
pub fn listing_row(device: &Device, size: &str) -> (row: String)
    ensures
        row@ == listing_row_text(device@, size@),
{
    proof {
        reveal_strlit(" ");
        assert(" "@ =~= seq![' ']);
    }
    let suffix = runtime_suffix_of(device.runtime.as_str());
    let mut row = pad_right(device.name.as_str(), NAME_WIDTH);
    row.append(" ");
    let runtime_cell = pad_right(suffix.as_str(), LISTING_RUNTIME_WIDTH);
    row.append(runtime_cell.as_str());
    row.append(" ");
    row.append(size);
    row
}

/// Formats the progress line of one device.
pub fn progress_line(device: &Device) -> (line: String)
    ensures
        line@ == progress_line_text(device@),
{
    proof {
        reveal_strlit("  ");
        reveal_strlit(" [");
        reveal_strlit("]...");
        assert("  "@ =~= seq![' ', ' ']);
        assert(" ["@ =~= seq![' ', '[']);
        assert("]..."@ =~= seq![']', '.', '.', '.']);
    }
    let suffix = runtime_suffix_of(device.runtime.as_str());
    let mut line = String::from_str("  ");
    line.append(device.name.as_str());
    line.append(" [");
    line.append(suffix.as_str());
    line.append("]...");
    line
}

} // verus!
