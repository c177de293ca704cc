//! Messages and the text each of them announces.

use crate::text::{signed_decimal, signed_decimal_text};
use vstd::prelude::*;
use vstd::string::StringExecFns;

verus! {

/// A message with the data that belongs to its kind.
#[derive(Debug)]
pub enum Message {
    /// Nothing more to say.
    Quit,
    /// A move to a position.
    Move { x: i32, y: i32 },
    /// A text to write.
    Write(String),
    /// A colour given by its red, green and blue parts.
    ChangeColor(i32, i32, i32),
}

impl Message {
    /// The text that announces this message.
    pub open spec fn announcement(&self) -> Seq<char> {
        match self {
            Message::Quit => "退出訊息"@,
            Message::Move { x, y } => "移動到 ("@ + signed_decimal(*x as int) + ", "@
                + signed_decimal(*y as int) + ")"@,
            Message::Write(text) => "寫入: "@ + text@,
            Message::ChangeColor(r, g, b) => "變更顏色: RGB("@ + signed_decimal(*r as int) + ", "@
                + signed_decimal(*g as int) + ", "@ + signed_decimal(*b as int) + ")"@,
        }
    }

    /// Writes the text that announces this message.
    pub fn call(&self) -> (text: String)
        ensures
            text@ == self.announcement(),
    {
        match self {
            Message::Quit => "退出訊息".to_owned(),
            Message::Move { x, y } => {
                let x_text = signed_decimal_text(*x);
                let y_text = signed_decimal_text(*y);
                let mut text = "移動到 (".to_owned();
                text.append(x_text.as_str());
                text.append(", ");
                text.append(y_text.as_str());
                text.append(")");
                text
            },
            Message::Write(written) => {
                let mut text = "寫入: ".to_owned();
                text.append(written.as_str());
                text
            },
            Message::ChangeColor(r, g, b) => {
                let r_text = signed_decimal_text(*r);
                let g_text = signed_decimal_text(*g);
                let b_text = signed_decimal_text(*b);
                let mut text = "變更顏色: RGB(".to_owned();
                text.append(r_text.as_str());
                text.append(", ");
                text.append(g_text.as_str());
                text.append(", ");
                text.append(b_text.as_str());
                text.append(")");
                text
            },
        }
    }
}

} // verus!
