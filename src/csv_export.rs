use std::collections::HashMap;

use crate::balance::{decimal_text_of, digit_char, nat_text, SCALE};
use crate::bank::client_views;
use crate::client::{Client, ClientView};
use vstd::prelude::*;
use vstd::std_specs::iter::IteratorSpec;
use vstd::string::*;

verus! {

broadcast use vstd::std_specs::hash::group_hash_axioms;

/// Width of each column of the header; the columns of a row are one narrower
/// and separated by commas.
pub const WIDTH: usize = 12;

/// `n` spaces.
pub open spec fn spaces(n: nat) -> Seq<char>
    decreases n,
{
    if n == 0 {
        Seq::empty()
    } else {
        spaces((n - 1) as nat).push(' ')
    }
}

/// `s` right-aligned in a column of `width` characters.
pub open spec fn pad_spec(s: Seq<char>, width: nat) -> Seq<char> {
    if s.len() < width {
        spaces((width - s.len()) as nat) + s
    } else {
        s
    }
}

/// The header line of the table.
pub open spec fn header_line() -> Seq<char> {
    pad_spec("client,"@, WIDTH as nat) + pad_spec("available,"@, WIDTH as nat) + pad_spec(
        "held,"@,
        WIDTH as nat,
    ) + pad_spec("total,"@, WIDTH as nat) + pad_spec("locked"@, WIDTH as nat) + "\n"@
}

/// The text of a flag.
pub open spec fn bool_text(b: bool) -> Seq<char> {
    if b {
        "true"@
    } else {
        "false"@
    }
}

/// The text of an amount of units.
pub open spec fn amount_text(units: nat) -> Seq<char> {
    decimal_text_of(units, SCALE as nat)
}

/// The row of the table for the account `c` of client `id`.
pub open spec fn row_line(id: u16, c: ClientView) -> Seq<char> {
    let w = (WIDTH - 1) as nat;
    pad_spec(nat_text(id as nat), w) + ","@ + pad_spec(amount_text(c.available), w)
        + ","@ + pad_spec(amount_text(c.held), w) + ","@ + pad_spec(
        amount_text(c.available + c.held),
        w,
    ) + ","@ + pad_spec(bool_text(c.locked), w) + "\n"@
}

/// The rows of the accounts of `clients` named by `ids`, in that order.
pub open spec fn rows(ids: Seq<u16>, clients: Map<u16, ClientView>) -> Seq<char>
    decreases ids.len(),
{
    if ids.len() == 0 {
        Seq::empty()
    } else {
        rows(ids.drop_last(), clients) + row_line(ids.last(), clients[ids.last()])
    }
}

/// Namespace for the export of client accounts as a comma-separated table.
#[derive(Debug, Copy, Clone)]
pub struct CsvExport {}

/// Appends `s` right-aligned in a column of `width` characters.
fn push_padded(out: &mut String, s: &str, width: usize)
    ensures
        final(out)@ == old(out)@ + pad_spec(s@, width as nat),
{
    let n = s.unicode_len();
    if n < width {
        let mut i: usize = 0;
        while i < width - n
            invariant
                i <= width - n,
                n < width,
                out@ == old(out)@ + spaces(i as nat),
            decreases width - n - i,
        {
            out.append(" ");
            proof {
                assert(spaces((i + 1) as nat) == spaces(i as nat).push(' '));
                assert(old(out)@ + spaces((i + 1) as nat) =~= old(out)@ + spaces(i as nat) + " "@)
                    by {
                    reveal_strlit(" ");
                }
            }
            i = i + 1;
        }
    }
    out.append(s);
    proof {
        if n < width {
            assert(old(out)@ + pad_spec(s@, width as nat) =~= old(out)@ + spaces(
                (width - n) as nat,
            ) + s@);
        } else {
            assert(old(out)@ + pad_spec(s@, width as nat) =~= old(out)@ + s@);
        }
    }
}

/// `s` right-aligned in a column of `width` characters.
fn padded(s: &str, width: usize) -> (r: String)
    ensures
        r@ == pad_spec(s@, width as nat),
{
    let mut out = String::new();
    push_padded(&mut out, s, width);
    proof {
        assert(out@ =~= pad_spec(s@, width as nat));
    }
    out
}

/// Appends the row of the account `c` of client `id`.
fn push_row(out: &mut String, id: u16, c: &Client)
    ensures
        final(out)@ == old(out)@ + row_line(id, c@),
{
    let w = WIDTH - 1;
    let mut line = padded(decimal_id(id).as_str(), w);
    line.append(",");
    push_padded(&mut line, c.available().to_text().as_str(), w);
    line.append(",");
    push_padded(&mut line, c.held().to_text().as_str(), w);
    line.append(",");
    push_padded(&mut line, c.total().to_text().as_str(), w);
    line.append(",");
    push_padded(&mut line, if c.is_locked() { "true" } else { "false" }, w);
    line.append("\n");
    proof {
        reveal_strlit("true");
        reveal_strlit("false");
        assert(line@ == row_line(id, c@));
    }
    out.append(line.as_str());
}

/// The header line of the table.
fn header() -> (r: String)
    ensures
        r@ == header_line(),
{
    let mut out = String::new();
    push_padded(&mut out, "client,", WIDTH);
    push_padded(&mut out, "available,", WIDTH);
    push_padded(&mut out, "held,", WIDTH);
    push_padded(&mut out, "total,", WIDTH);
    push_padded(&mut out, "locked", WIDTH);
    out.append("\n");
    proof {
        assert(out@ =~= header_line());
    }
    out
}

impl CsvExport {
    /// The table of all accounts: the header line, then one row per client
    /// with its id, available, held and total funds and whether it is
    /// locked. Rows come in no particular order.
    pub fn export(clients: &HashMap<u16, Client>) -> (r: String)
        ensures
            exists|ids: Seq<u16>|
                {
                    &&& ids.no_duplicates()
                    &&& ids.to_set() == clients@.dom()
                    &&& r@ == header_line() + rows(ids, client_views(clients@))
                },
    {
        let mut out = header();
        let ghost views = client_views(clients@);
        let ghost keys = clients.keys().remaining().unref();
        proof {
            assert(out@ =~= header_line() + rows(keys.take(0), views));
        }
        for k in it: clients.keys()
            invariant
                views == client_views(clients@),
                keys == it.seq().unref(),
                keys.to_set() == clients@.dom(),
                keys.no_duplicates(),
                out@ == header_line() + rows(keys.take(it.index() as int), views),
        {
            proof {
                assert(keys[it.index() as int] == *k);
                assert(keys.to_set().contains(*k));
            }
            match clients.get(k) {
                Some(c) => {
                    push_row(&mut out, *k, c);
                    proof {
                        let ks = keys.take(it.index() + 1);
                        assert(ks.drop_last() =~= keys.take(it.index() as int));
                        assert(views[*k] == c@);
                    }
                },
                None => {},
            }
        }
        proof {
            assert(keys.take(keys.len() as int) =~= keys);
        }
        out
    }
}

/// The text of the decimal digit `d`.
fn digit_text(d: u64) -> (r: &'static str)
    requires
        d < 10,
    ensures
        r@ == seq![digit_char(d as nat)],
{
    proof {
        reveal_strlit("0123456789");
        reveal_strlit("0");
        reveal_strlit("1");
        reveal_strlit("2");
        reveal_strlit("3");
        reveal_strlit("4");
        reveal_strlit("5");
        reveal_strlit("6");
        reveal_strlit("7");
        reveal_strlit("8");
        reveal_strlit("9");
    }
    let r = match d {
        0 => "0",
        1 => "1",
        2 => "2",
        3 => "3",
        4 => "4",
        5 => "5",
        6 => "6",
        7 => "7",
        8 => "8",
        _ => "9",
    };
    proof {
        assert(r@ =~= seq![digit_char(d as nat)]);
    }
    r
}

/// Appends the decimal digits of `n`.
fn push_nat_text(out: &mut String, n: u64)
    ensures
        final(out)@ == old(out)@ + nat_text(n as nat),
    decreases n,
{
    let ghost start = out@;
    if n >= 10 {
        push_nat_text(out, n / 10);
    }
    out.append(digit_text(n % 10));
    proof {
        if n >= 10 {
            assert(out@ =~= start + nat_text(n as nat));
        } else {
            assert(out@ =~= start + nat_text(n as nat));
        }
    }
}

/// The decimal text of a client id.
fn decimal_id(id: u16) -> (r: String)
    ensures
        r@ == nat_text(id as nat),
{
    let mut out = String::new();
    push_nat_text(&mut out, id as u64);
    proof {
        assert(out@ =~= nat_text(id as nat));
    }
    out
}

} // verus!
