//! Generated code as a sequence of token texts.
//!
//! Each part is the text of one or more tokens; the generated code is the
//! parts joined by single spaces, which `proc-macro2` lexes back into tokens.
use vstd::prelude::*;
use crate::syntax::{append_tokens, generated_trees, stream_trees, tokens_from_text};

verus! {

/// A growing sequence of token texts.
pub struct TokenText {
    parts: Vec<String>,
}

impl View for TokenText {
    type V = Seq<Seq<char>>;

    closed spec fn view(&self) -> Seq<Seq<char>> {
        self.parts@.map_values(|s: String| s@)
    }
}

/// The parts joined by single spaces.
pub open spec fn joined(parts: Seq<Seq<char>>) -> Seq<char>
    decreases parts.len(),
{
    if parts.len() == 0 {
        Seq::empty()
    } else if parts.len() == 1 {
        parts[0]
    } else {
        joined(parts.drop_last()) + " "@ + parts.last()
    }
}

impl TokenText {
    pub fn new() -> (r: Self)
        ensures
            r@ == Seq::<Seq<char>>::empty(),
    {
        let r = TokenText { parts: Vec::new() };
        assert(r@ =~= Seq::<Seq<char>>::empty());
        r
    }

    /// Appends one part.
    pub fn push(&mut self, part: &str)
        ensures
            final(self)@ == old(self)@.push(part@),
    {
        self.push_string(String::from_str(part));
    }

    /// Appends one part given as an owned string.
    pub fn push_string(&mut self, part: String)
        ensures
            final(self)@ == old(self)@.push(part@),
    {
        let ghost old_parts = self.parts@;
        self.parts.push(part);
        assert(self.parts@ == old_parts.push(part));
        assert(self@ =~= old(self)@.push(part@));
    }

    /// Whether there is no part.
    pub fn is_empty(&self) -> (r: bool)
        ensures
            r == (self@.len() == 0),
    {
        self.parts.len() == 0
    }

    /// Appends the tokens of the text to `tokens`: nothing for an empty
    /// text, otherwise the parts joined by spaces and lexed.
    pub fn append_to(&self, tokens: &mut proc_macro2::TokenStream)
        ensures
            stream_trees(*final(tokens)) == stream_trees(*old(tokens)) + generated_trees(self@),
    {
        if self.is_empty() {
            assert(stream_trees(*tokens) =~= stream_trees(*tokens) + generated_trees(self@));
            return;
        }
        match tokens_from_text(&self.render()) {
            Some(t) => append_tokens(tokens, t),
            None => {
                assert(stream_trees(*tokens) =~= stream_trees(*tokens) + generated_trees(self@));
            },
        }
    }

    /// The parts joined by single spaces.
    pub fn render(&self) -> (r: String)
        ensures
            r@ == joined(self@),
    {
        let mut r = String::new();
        let mut i: usize = 0;
        while i < self.parts.len()
            invariant
                i <= self.parts@.len(),
                r@ == joined(self@.subrange(0, i as int)),
            decreases self.parts@.len() - i,
        {
            assert(self@.subrange(0, i + 1).drop_last() =~= self@.subrange(0, i as int));
            if i > 0 {
                r.append(" ");
            }
            r.append(self.parts[i].as_str());
            i += 1;
        }
        assert(self@.subrange(0, self.parts@.len() as int) =~= self@);
        r
    }
}

/// The decimal digits of `n`.
pub open spec fn decimal(n: nat) -> Seq<char>
    decreases n,
{
    if n < 10 {
        digit(n)
    } else {
        decimal(n / 10) + digit(n % 10)
    }
}

/// The text of one decimal digit.
pub open spec fn digit(d: nat) -> Seq<char> {
    if d == 0 {
        "0"@
    } else if d == 1 {
        "1"@
    } else if d == 2 {
        "2"@
    } else if d == 3 {
        "3"@
    } else if d == 4 {
        "4"@
    } else if d == 5 {
        "5"@
    } else if d == 6 {
        "6"@
    } else if d == 7 {
        "7"@
    } else if d == 8 {
        "8"@
    } else {
        "9"@
    }
}

fn digit_text(d: usize) -> (r: &'static str)
    requires
        d < 10,
    ensures
        r@ == digit(d as nat),
{
    if d == 0 {
        "0"
    } else if d == 1 {
        "1"
    } else if d == 2 {
        "2"
    } else if d == 3 {
        "3"
    } else if d == 4 {
        "4"
    } else if d == 5 {
        "5"
    } else if d == 6 {
        "6"
    } else if d == 7 {
        "7"
    } else if d == 8 {
        "8"
    } else {
        "9"
    }
}

/// The decimal text of `n`, as `quote` prints a number.
pub fn decimal_text(n: usize) -> (r: String)
    ensures
        r@ == decimal(n as nat),
    decreases n,
{
    if n < 10 {
        String::from_str(digit_text(n))
    } else {
        let prefix = decimal_text(n / 10);
        prefix.concat(digit_text(n % 10))
    }
}

} // verus!
