//! Plain data records exchanged with the search provider and the upload
//! destination.

use vstd::prelude::*;
use crate::text::{decimal, digit, digit_char, push_decimal, push_str};

verus! {

pub const KIB: u64 = 1024;
pub const MIB: u64 = 1048576;
pub const GIB: u64 = 1073741824;

/// One search hit.
#[derive(Debug, Clone)]
pub struct TorrentResult {
    pub title: String,
    /// Name of the index that reported the hit.
    pub indexer: String,
    /// Size in bytes.
    pub size: u64,
    pub seeders: u32,
    pub leechers: u32,
    /// Opaque transfer locator (a magnet link).
    pub magnet: String,
    /// Marked by the user for upload.
    pub selected: bool,
}

/// `n / unit` in hundredths, rounded to nearest with ties to even.
pub open spec fn hundredths(n: nat, unit: nat) -> nat
    recommends
        unit > 0,
{
    let q = n * 100 / unit;
    let r = n * 100 % unit;
    if 2 * r > unit || (2 * r == unit && q % 2 == 1) {
        q + 1
    } else {
        q
    }
}

/// A count of hundredths written with two decimals (`1234` is `12.34`).
pub open spec fn two_decimals(h: nat) -> Seq<char> {
    decimal(h / 100) + seq!['.', digit_char((h % 100) / 10), digit_char(h % 10)]
}

/// The human-readable size: binary units with two decimals from one KiB up,
/// plain bytes below.
pub open spec fn size_text(size: nat) -> Seq<char> {
    if size >= GIB {
        two_decimals(hundredths(size, GIB as nat)) + seq![' ', 'G', 'i', 'B']
    } else if size >= MIB {
        two_decimals(hundredths(size, MIB as nat)) + seq![' ', 'M', 'i', 'B']
    } else if size >= KIB {
        two_decimals(hundredths(size, KIB as nat)) + seq![' ', 'K', 'i', 'B']
    } else {
        decimal(size) + seq![' ', 'B']
    }
}

fn rounded_hundredths(n: u64, unit: u64) -> (h: u64)
    requires
        unit >= KIB,
    ensures
        h == hundredths(n as nat, unit as nat),
{
    let scaled: u128 = (n as u128) * 100;
    let q: u128 = scaled / (unit as u128);
    let r: u128 = scaled % (unit as u128);
    proof {
        assert(q <= scaled) by (nonlinear_arith)
            requires q == scaled / (unit as u128), unit >= 1;
        assert(scaled <= 100 * 0xffff_ffff_ffff_ffffu128);
        assert(q <= 100 * 0xffff_ffff_ffff_ffffu128 / 1024) by (nonlinear_arith)
            requires q == scaled / (unit as u128), unit >= 1024, scaled <= 100 * 0xffff_ffff_ffff_ffffu128;
    }
    let up = 2 * r > unit as u128 || (2 * r == unit as u128 && q % 2 == 1);
    if up { (q + 1) as u64 } else { q as u64 }
}

fn push_two_decimals(out: &mut String, h: u64)
    ensures
        final(out)@ == old(out)@ + two_decimals(h as nat),
{
    push_decimal(out, h / 100);
    out.push('.');
    out.push(digit((h % 100) / 10));
    out.push(digit(h % 10));
    assert(final(out)@ =~= old(out)@ + two_decimals(h as nat));
}

impl TorrentResult {
    /// A copy with equal fields.
    pub fn duplicate(&self) -> (r: TorrentResult)
        ensures
            r == *self,
    {
        TorrentResult {
            title: self.title.clone(),
            indexer: self.indexer.clone(),
            size: self.size,
            seeders: self.seeders,
            leechers: self.leechers,
            magnet: self.magnet.clone(),
            selected: self.selected,
        }
    }

    /// The size for display, e.g. `1.50 GiB` or `512 B`.
    pub fn size_str(&self) -> (r: String)
        ensures
            r@ == size_text(self.size as nat),
    {
        let mut s = String::new();
        let size = self.size;
        if size >= GIB {
            push_two_decimals(&mut s, rounded_hundredths(size, GIB));
            push_str(&mut s, " GiB");
        } else if size >= MIB {
            push_two_decimals(&mut s, rounded_hundredths(size, MIB));
            push_str(&mut s, " MiB");
        } else if size >= KIB {
            push_two_decimals(&mut s, rounded_hundredths(size, KIB));
            push_str(&mut s, " KiB");
        } else {
            push_decimal(&mut s, size);
            push_str(&mut s, " B");
        }
        proof {
            reveal_strlit(" GiB");
            reveal_strlit(" MiB");
            reveal_strlit(" KiB");
            reveal_strlit(" B");
            assert(s@ =~= size_text(size as nat));
        }
        s
    }
}

/// An entry of a folder listing at the upload destination.
#[derive(Debug, Clone)]
pub struct PutioFile {
    pub id: u64,
    pub name: String,
    pub parent_id: u64,
}

/// The answer to a transfer submission.
#[derive(Debug)]
pub struct PutioTransferResponse {
    pub transfer: PutioTransfer,
}

/// A transfer accepted by the upload destination.
#[derive(Debug)]
pub struct PutioTransfer {
    pub id: u64,
    pub name: String,
}

} // verus!
