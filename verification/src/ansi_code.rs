//! The escape code that carries an SGR parameter to the terminal.

use vstd::prelude::*;
use vstd::string::*;

verus! {

/// The escape code around a parameter text: ESC, `[`, the parameter, `m`.
pub open spec fn escape(parameter: Seq<char>) -> Seq<char> {
    seq!['\x1b', '['] + parameter + seq!['m']
}

/// An escape code, held as its parameter text.
pub struct ANSIEscapeCode {
    parameter: String,
}

impl View for ANSIEscapeCode {
    type V = Seq<char>;

    /// The parameter text.
    closed spec fn view(&self) -> Seq<char> {
        self.parameter@
    }
}

impl ANSIEscapeCode {
    /// An escape code with the given parameter text.
    pub fn new(parameter: &str) -> (code: Self)
        ensures
            code@ == parameter@,
    {
        ANSIEscapeCode { parameter: String::from_str(parameter) }
    }

    /// The whole escape code as text.
    pub fn code(&self) -> (s: String)
        ensures
            s@ == escape(self@),
    {
        proof {
            reveal_strlit("\x1b[");
            reveal_strlit("m");
        }
        let mut s = String::from_str("\x1b[");
        s.append(self.parameter.as_str());
        s.append("m");
        assert(s@ =~= escape(self@));
        s
    }
}

} // verus!
