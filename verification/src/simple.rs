//! The file of a simple resource: the rows of its query, written as one
//! JSON array.

use vstd::prelude::*;
use vstd::utf8::encode_utf8;

verus! {

/// Opening bracket of the array.
pub const OPEN: u8 = 0x5B;

/// Closing bracket of the array.
pub const CLOSE: u8 = 0x5D;

/// Separator between two rows.
pub const COMMA: u8 = 0x2C;

/// Line feed.
pub const NEWLINE: u8 = 0x0A;

/// The first `n` rows as they stand in the file: each on a line of its
/// own, with a comma after every row but the last.
pub open spec fn joined_rows(rows: Seq<Seq<u8>>, n: int) -> Seq<u8>
    decreases n,
{
    if n <= 0 {
        seq![]
    } else if n == 1 {
        seq![NEWLINE] + rows[0]
    } else {
        joined_rows(rows, n - 1) + seq![COMMA, NEWLINE] + rows[n - 1]
    }
}

/// The file that holds `rows`: `[`, the rows, and `]` with a line feed. With
/// no row, the brackets follow each other; else the closing bracket stands
/// on a line of its own.
pub open spec fn json_array(rows: Seq<Seq<u8>>) -> Seq<u8> {
    if rows.len() == 0 {
        seq![OPEN, CLOSE, NEWLINE]
    } else {
        seq![OPEN] + joined_rows(rows, rows.len() as int) + seq![NEWLINE, CLOSE, NEWLINE]
    }
}

/// The UTF-8 bytes of each row's text.
pub open spec fn row_bytes(rows: Seq<String>) -> Seq<Seq<u8>> {
    Seq::new(rows.len(), |i: int| encode_utf8(rows[i]@))
}

/// Fetch a simple resource: the file that holds the rows of its query,
/// each row being JSON text already.
pub fn fetch_simple(rows: &Vec<String>) -> (r: Vec<u8>)
    ensures
        r@ == json_array(row_bytes(rows@)),
{
    let ghost texts = row_bytes(rows@);
    let mut w: Vec<u8> = Vec::new();
    w.push(OPEN);
    let mut c: usize = 0;
    while c < rows.len()
        invariant
            c <= rows.len(),
            texts == row_bytes(rows@),
            w@ == seq![OPEN] + joined_rows(texts, c as int),
        decreases rows.len() - c,
    {
        let ghost before = w@;
        if c > 0 {
            w.push(COMMA);
        }
        w.push(NEWLINE);
        w.extend_from_slice(rows[c].as_str().as_bytes());
        proof {
            assert(texts[c as int] == encode_utf8(rows@[c as int]@));
            if c == 0 {
                assert(joined_rows(texts, 0) =~= seq![]);
                assert(w@ =~= seq![OPEN] + joined_rows(texts, 1));
            } else {
                assert(w@ =~= seq![OPEN] + joined_rows(texts, c as int + 1));
            }
        }
        c += 1;
    }
    if c > 0 {
        w.push(NEWLINE);
    }
    w.push(CLOSE);
    w.push(NEWLINE);
    proof {
        if rows@.len() == 0 {
            assert(joined_rows(texts, 0) =~= seq![]);
        }
        assert(w@ =~= json_array(texts));
    }
    w
}

/// Whatever the rows, the file is a bracketed array and never empty; with
/// no row at all it is the empty array.
pub proof fn law_array_is_bracketed(rows: Seq<Seq<u8>>)
    ensures
        json_array(rows).len() >= 3,
        json_array(rows).first() == OPEN,
        json_array(rows)[json_array(rows).len() - 2] == CLOSE,
        json_array(rows).last() == NEWLINE,
        rows.len() == 0 ==> json_array(rows) == seq![OPEN, CLOSE, NEWLINE],
{
}

} // verus!
