//! What one invocation hands to the output sink: launcher-displayable items
//! or a single error item, never both, and the variable list attached to the
//! write. Encoding the items into the launcher's wire format belongs to the
//! output-sink collaborator outside this crate.

use vstd::prelude::*;
use vstd::string::StringExecFns;

use crate::errors::AlfredError;

verus! {

/// One launcher-displayable item.
#[derive(Debug)]
pub struct Item {
    pub title: String,
    pub subtitle: String,
    pub icon_path: String,
    /// The argument handed back to the launcher when the item is actioned.
    pub arg: Option<String>,
}

/// Mathematical model of an `Item`.
pub struct ItemV {
    pub title: Seq<char>,
    pub subtitle: Seq<char>,
    pub icon_path: Seq<char>,
    pub arg: Option<Seq<char>>,
}

impl View for Item {
    type V = ItemV;

    open spec fn view(&self) -> ItemV {
        ItemV {
            title: self.title@,
            subtitle: self.subtitle@,
            icon_path: self.icon_path@,
            arg: match self.arg {
                Some(a) => Some(a@),
                None => None,
            },
        }
    }
}

/// The single structured outcome of one invocation: either a sequence of
/// displayable items or a single error, never both. Exactly one output-sink
/// write occurs per invocation.
#[derive(Debug)]
pub enum CommandResult {
    Items(Vec<Item>),
    Error(AlfredError),
}

/// The item shown for a failure: the fixed error title and icon, with the
/// message as the subtitle.
pub open spec fn error_item_v(msg: Seq<char>) -> ItemV {
    ItemV { title: "Error"@, subtitle: msg, icon_path: "erroricon.icns"@, arg: None }
}

/// Builds the launcher item that reports a failure.
pub fn error_item(msg: &str) -> (r: Item)
    ensures
        r@ == error_item_v(msg@),
{
    Item {
        title: "Error".to_owned(),
        subtitle: msg.to_owned(),
        icon_path: "erroricon.icns".to_owned(),
        arg: None,
    }
}

/// The item shown for a success message: title only.
pub open spec fn message_item_v(msg: Seq<char>) -> ItemV {
    ItemV { title: msg, subtitle: Seq::<char>::empty(), icon_path: Seq::<char>::empty(), arg: None }
}

/// Builds a launcher item that carries a bare message.
pub fn message_item(msg: &str) -> (r: Item)
    ensures
        r@ == message_item_v(msg@),
{
    Item { title: msg.to_owned(), subtitle: String::new(), icon_path: String::new(), arg: None }
}

/// The variables attached to every output write: the invocation counter
/// first, then the caller's extra variables in their given order.
pub fn output_variables(exec_counter: String, extra: &Vec<(String, String)>) -> (r: Vec<
    (String, String),
>)
    ensures
        r@.len() == 1 + extra@.len(),
        r@[0].0@ == "apr_execution_counter"@,
        r@[0].1 == exec_counter,
        forall|i: int|
            0 <= i < extra@.len() ==> (#[trigger] r@[1 + i]).0@ == extra@[i].0@ && r@[1 + i].1@
                == extra@[i].1@,
{
    let mut r: Vec<(String, String)> = Vec::new();
    r.push(("apr_execution_counter".to_owned(), exec_counter));
    let mut i: usize = 0;
    while i < extra.len()
        invariant
            0 <= i <= extra.len(),
            r@.len() == 1 + i,
            r@[0].0@ == "apr_execution_counter"@,
            r@[0].1 == exec_counter,
            forall|j: int|
                0 <= j < i ==> (#[trigger] r@[1 + j]).0@ == extra@[j].0@ && r@[1 + j].1@
                    == extra@[j].1@,
        decreases extra.len() - i,
    {
        let pair = (extra[i].0.clone(), extra[i].1.clone());
        r.push(pair);
        i = i + 1;
    }
    r
}

/// The character for one decimal digit.
pub open spec fn digit_char(d: u8) -> char
    recommends
        d < 10,
{
    if d == 0 {
        '0'
    } else if d == 1 {
        '1'
    } else if d == 2 {
        '2'
    } else if d == 3 {
        '3'
    } else if d == 4 {
        '4'
    } else if d == 5 {
        '5'
    } else if d == 6 {
        '6'
    } else if d == 7 {
        '7'
    } else if d == 8 {
        '8'
    } else {
        '9'
    }
}

/// The decimal rendering of a byte-sized count, without leading zeros.
pub open spec fn dec_u8(v: u8) -> Seq<char> {
    if v < 10 {
        seq![digit_char(v)]
    } else if v < 100 {
        seq![digit_char(v / 10), digit_char(v % 10)]
    } else {
        seq![digit_char(v / 100), digit_char((v / 10) % 10), digit_char(v % 10)]
    }
}

/// The one-character string for one decimal digit.
fn digit_str(d: u8) -> (r: &'static str)
    requires
        d < 10,
    ensures
        r@ == seq![digit_char(d)],
{
    proof {
        reveal_strlit("0");
        reveal_strlit("1");
        reveal_strlit("2");
        reveal_strlit("3");
        reveal_strlit("4");
        reveal_strlit("5");
        reveal_strlit("6");
        reveal_strlit("7");
        reveal_strlit("8");
        reveal_strlit("9");
        assert("0"@ =~= seq![digit_char(0)]);
        assert("1"@ =~= seq![digit_char(1)]);
        assert("2"@ =~= seq![digit_char(2)]);
        assert("3"@ =~= seq![digit_char(3)]);
        assert("4"@ =~= seq![digit_char(4)]);
        assert("5"@ =~= seq![digit_char(5)]);
        assert("6"@ =~= seq![digit_char(6)]);
        assert("7"@ =~= seq![digit_char(7)]);
        assert("8"@ =~= seq![digit_char(8)]);
        assert("9"@ =~= seq![digit_char(9)]);
    }
    match d {
        0 => "0",
        1 => "1",
        2 => "2",
        3 => "3",
        4 => "4",
        5 => "5",
        6 => "6",
        7 => "7",
        8 => "8",
        _ => "9",
    }
}

/// Renders a byte-sized count in decimal, without leading zeros.
pub fn u8_to_decimal(v: u8) -> (r: String)
    ensures
        r@ == dec_u8(v),
{
    if v < 10 {
        let r = digit_str(v).to_owned();
        r
    } else if v < 100 {
        let r = digit_str(v / 10).to_owned().concat(digit_str(v % 10));
        proof {
            assert(r@ =~= dec_u8(v));
        }
        r
    } else {
        let r = digit_str(v / 100).to_owned().concat(digit_str((v / 10) % 10)).concat(
            digit_str(v % 10),
        );
        proof {
            assert(r@ =~= dec_u8(v));
        }
        r
    }
}

/// The rendering of a behavior flag.
pub open spec fn bool_str(b: bool) -> Seq<char> {
    if b {
        "true"@
    } else {
        "false"@
    }
}

/// Renders a behavior flag.
pub fn bool_string(b: bool) -> (r: String)
    ensures
        r@ == bool_str(b),
{
    if b {
        "true".to_owned()
    } else {
        "false".to_owned()
    }
}

} // verus!
