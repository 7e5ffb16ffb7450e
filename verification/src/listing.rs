//! The file listing and its fixed-width table rendering.

use vstd::prelude::*;
use crate::text::{
    center, pad_left, pad_right, spec_center, spec_dec, spec_fill, spec_pad_left, spec_pad_right,
    u64_to_dec,
};

verus! {

/// File entry item for list endpoint.
#[derive(Debug, Clone, PartialEq)]
pub struct ListItem {
    /// Uploaded file name.
    pub file_name: String,
    /// Size of the file in bytes.
    pub file_size: u64,
    /// ISO8601 formatted date-time string of the creation timestamp.
    pub creation_date_utc: String,
    /// ISO8601 formatted date-time string of the expiration timestamp
    /// if one exists for this file.
    pub expires_at_utc: Option<String>,
}

/// The sentinel shown when a record carries no creation timestamp.
pub fn creation_date_utc_default() -> (r: String)
    ensures
        r@ == "info not available"@,
{
    "info not available".to_owned()
}

/// The widest file name in the listing, in characters.
pub open spec fn spec_name_width(items: Seq<ListItem>) -> nat
    decreases items.len(),
{
    if items.len() == 0 {
        0
    } else {
        let w = spec_name_width(items.drop_last());
        let l = items.last().file_name@.len();
        if l > w {
            l
        } else {
            w
        }
    }
}

/// The largest file size in the listing.
pub open spec fn spec_max_size(items: Seq<ListItem>) -> u64
    decreases items.len(),
{
    if items.len() == 0 {
        0
    } else {
        let w = spec_max_size(items.drop_last());
        let l = items.last().file_size;
        if l > w {
            l
        } else {
            w
        }
    }
}

/// The size column's width: wide enough for the largest size, floored
/// at four characters to fit the column's header.
pub open spec fn spec_size_width(items: Seq<ListItem>) -> nat {
    let w = spec_dec(spec_max_size(items) as nat).len();
    if w < 4 {
        4
    } else {
        w
    }
}

/// The table's header line.
pub open spec fn spec_header_line(name_w: nat, size_w: nat) -> Seq<char> {
    spec_center("Name"@, name_w) + " | "@ + spec_center("Size"@, size_w) + " | "@ + spec_center(
        "Creation (UTC)"@,
        19,
    ) + " | "@ + spec_center("Expiry (UTC)"@, 19) + "\n"@
}

/// The rule under the table's header.
pub open spec fn spec_separator_line(name_w: nat, size_w: nat) -> Seq<char> {
    spec_fill('-', name_w) + "-|-"@ + spec_fill('-', size_w) + "-|-"@ + spec_fill('-', 19)
        + "-|-"@ + spec_fill('-', 19) + "\n"@
}

/// One record's line: name left-aligned, size right-aligned, creation
/// timestamp left-aligned, and the expiry timestamp plain, blank when
/// the file never expires.
pub open spec fn spec_item_line(item: ListItem, name_w: nat, size_w: nat) -> Seq<char> {
    spec_pad_right(item.file_name@, name_w) + " | "@ + spec_pad_left(
        spec_dec(item.file_size as nat),
        size_w,
    ) + " | "@ + spec_pad_right(item.creation_date_utc@, 19) + " | "@ + (match item
        .expires_at_utc {
        Some(e) => e@,
        None => Seq::<char>::empty(),
    }) + "\n"@
}

/// The record lines, in listing order.
pub open spec fn spec_item_lines(items: Seq<ListItem>, name_w: nat, size_w: nat) -> Seq<char>
    decreases items.len(),
{
    if items.len() == 0 {
        Seq::empty()
    } else {
        spec_item_lines(items.drop_last(), name_w, size_w) + spec_item_line(
            items.last(),
            name_w,
            size_w,
        )
    }
}

/// The whole rendering of a listing: an explicit message for an empty
/// one, otherwise header, rule and one line per record, with column
/// widths fitted to the widest content.
pub open spec fn spec_render_list(items: Seq<ListItem>) -> Seq<char> {
    if items.len() == 0 {
        "No files on server :(\n"@
    } else {
        spec_header_line(spec_name_width(items), spec_size_width(items)) + spec_separator_line(
            spec_name_width(items),
            spec_size_width(items),
        ) + spec_item_lines(items, spec_name_width(items), spec_size_width(items))
    }
}

fn name_width(items: &Vec<ListItem>) -> (r: usize)
    ensures
        r == spec_name_width(items@),
{
    let mut w: usize = 0;
    let mut i: usize = 0;
    while i < items.len()
        invariant
            i <= items@.len(),
            w == spec_name_width(items@.subrange(0, i as int)),
        decreases items@.len() - i,
    {
        proof {
            assert(items@.subrange(0, i + 1).drop_last() == items@.subrange(0, i as int));
            assert(items@.subrange(0, i + 1).last() == items@[i as int]);
        }
        let l = items[i].file_name.as_str().unicode_len();
        if l > w {
            w = l;
        }
        i = i + 1;
    }
    proof {
        assert(items@.subrange(0, items@.len() as int) == items@);
    }
    w
}

fn max_size(items: &Vec<ListItem>) -> (r: u64)
    ensures
        r == spec_max_size(items@),
{
    let mut w: u64 = 0;
    let mut i: usize = 0;
    while i < items.len()
        invariant
            i <= items@.len(),
            w == spec_max_size(items@.subrange(0, i as int)),
        decreases items@.len() - i,
    {
        proof {
            assert(items@.subrange(0, i + 1).drop_last() == items@.subrange(0, i as int));
            assert(items@.subrange(0, i + 1).last() == items@[i as int]);
        }
        let l = items[i].file_size;
        if l > w {
            w = l;
        }
        i = i + 1;
    }
    proof {
        assert(items@.subrange(0, items@.len() as int) == items@);
    }
    w
}

fn append_item_line(out: &mut String, item: &ListItem, name_w: usize, size_w: usize)
    ensures
        final(out)@ == old(out)@ + spec_item_line(*item, name_w as nat, size_w as nat),
{
    out.append(pad_right(item.file_name.as_str(), name_w).as_str());
    out.append(" | ");
    out.append(pad_left(u64_to_dec(item.file_size).as_str(), size_w).as_str());
    out.append(" | ");
    out.append(pad_right(item.creation_date_utc.as_str(), 19).as_str());
    out.append(" | ");
    if let Some(expiry) = &item.expires_at_utc {
        out.append(expiry.as_str());
    }
    out.append("\n");
    proof {
        assert(out@ =~= old(out)@ + spec_item_line(*item, name_w as nat, size_w as nat));
    }
}

/// Renders the listing as the table or message described by
/// `spec_render_list`.
pub fn render_list(items: &Vec<ListItem>) -> (r: String)
    ensures
        r@ == spec_render_list(items@),
{
    if items.len() == 0 {
        return "No files on server :(\n".to_owned();
    }
    let name_w = name_width(items);
    let dec = u64_to_dec(max_size(items));
    let dec_len = dec.as_str().unicode_len();
    let size_w = if dec_len < 4 {
        4
    } else {
        dec_len
    };
    let mut out = String::new();
    out.append(center("Name", name_w).as_str());
    out.append(" | ");
    out.append(center("Size", size_w).as_str());
    out.append(" | ");
    out.append(center("Creation (UTC)", 19).as_str());
    out.append(" | ");
    out.append(center("Expiry (UTC)", 19).as_str());
    out.append("\n");
    proof {
        assert(out@ =~= spec_header_line(name_w as nat, size_w as nat));
    }
    let mut dashes_name = String::new();
    proof {
        reveal_strlit("-");
    }
    append_dashes(&mut dashes_name, name_w);
    out.append(dashes_name.as_str());
    out.append("-|-");
    let mut dashes_size = String::new();
    append_dashes(&mut dashes_size, size_w);
    out.append(dashes_size.as_str());
    out.append("-|-");
    let mut dashes_19 = String::new();
    append_dashes(&mut dashes_19, 19);
    out.append(dashes_19.as_str());
    out.append("-|-");
    out.append(dashes_19.as_str());
    out.append("\n");
    proof {
        assert(out@ =~= spec_header_line(name_w as nat, size_w as nat) + spec_separator_line(
            name_w as nat,
            size_w as nat,
        ));
    }
    let ghost head = out@;
    let mut i: usize = 0;
    while i < items.len()
        invariant
            i <= items@.len(),
            name_w == spec_name_width(items@),
            size_w == spec_size_width(items@),
            head == spec_header_line(name_w as nat, size_w as nat) + spec_separator_line(
                name_w as nat,
                size_w as nat,
            ),
            out@ == head + spec_item_lines(
                items@.subrange(0, i as int),
                name_w as nat,
                size_w as nat,
            ),
        decreases items@.len() - i,
    {
        proof {
            assert(items@.subrange(0, i + 1).drop_last() == items@.subrange(0, i as int));
            assert(items@.subrange(0, i + 1).last() == items@[i as int]);
        }
        append_item_line(&mut out, &items[i], name_w, size_w);
        i = i + 1;
    }
    proof {
        assert(items@.subrange(0, items@.len() as int) == items@);
        assert(out@ =~= spec_render_list(items@));
    }
    out
}

fn append_dashes(s: &mut String, count: usize)
    ensures
        final(s)@ == old(s)@ + spec_fill('-', count as nat),
{
    let mut j: usize = 0;
    proof {
        reveal_strlit("-");
    }
    while j < count
        invariant
            j <= count,
            s@ == old(s)@ + spec_fill('-', j as nat),
        decreases count - j,
    {
        s.append("-");
        j = j + 1;
        proof {
            reveal_strlit("-");
            assert(old(s)@ + spec_fill('-', j as nat) =~= old(s)@ + spec_fill(
                '-',
                (j - 1) as nat,
            ) + "-"@);
        }
    }
}

} // verus!
