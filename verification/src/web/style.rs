//! Style sheets for widgets on a web page.
use crate::align::Align;
use crate::length::Length;
use vstd::prelude::*;
use vstd::string::StringExecFns;

verus! {

/// A style that widgets share through a class of a style sheet.
#[derive(Debug, Clone, Copy, PartialEq, Eq, Structural)]
pub enum Style {
    /// Children from top to bottom.
    Column,
    /// Children from left to right.
    Row,
    /// Space between the edge and the content.
    Padding(u16),
    /// Space between two children.
    Spacing(u16),
}

/// The character that stands for a digit.
pub open spec fn spec_digit(digit: nat) -> char {
    if digit == 0 {
        '0'
    } else if digit == 1 {
        '1'
    } else if digit == 2 {
        '2'
    } else if digit == 3 {
        '3'
    } else if digit == 4 {
        '4'
    } else if digit == 5 {
        '5'
    } else if digit == 6 {
        '6'
    } else if digit == 7 {
        '7'
    } else if digit == 8 {
        '8'
    } else {
        '9'
    }
}

/// A number in decimal digits, without leading zeros.
pub open spec fn spec_decimal(value: nat) -> Seq<char>
    decreases value,
{
    if value < 10 {
        seq![spec_digit(value)]
    } else {
        spec_decimal(value / 10).push(spec_digit(value % 10))
    }
}

/// Returns the text of a digit.
fn digit(value: u32) -> (text: &'static str)
    requires
        value < 10,
    ensures
        text@ == seq![spec_digit(value as nat)],
{
    proof {
        reveal_strlit("0");
        reveal_strlit("1");
        reveal_strlit("2");
        reveal_strlit("3");
        reveal_strlit("4");
        reveal_strlit("5");
        reveal_strlit("6");
        reveal_strlit("7");
        reveal_strlit("8");
        reveal_strlit("9");
    }
    let text = if value == 0 {
        "0"
    } else if value == 1 {
        "1"
    } else if value == 2 {
        "2"
    } else if value == 3 {
        "3"
    } else if value == 4 {
        "4"
    } else if value == 5 {
        "5"
    } else if value == 6 {
        "6"
    } else if value == 7 {
        "7"
    } else if value == 8 {
        "8"
    } else {
        "9"
    };
    assert(text@ =~= seq![spec_digit(value as nat)]);
    text
}

/// Appends a number in decimal digits to `text`.
pub fn push_decimal(text: &mut String, value: u32)
    ensures
        final(text)@ == old(text)@ + spec_decimal(value as nat),
    decreases value,
{
    if value >= 10 {
        push_decimal(text, value / 10);
    }
    text.append(digit(value % 10));
    assert(text@ =~= old(text)@ + spec_decimal(value as nat));
}

/// What a sizing policy is in a style: a fixed number of units is as many
/// pixels, as little as the content needs is `auto`, and a policy that fills
/// takes all there is.
pub open spec fn spec_length(length: Length) -> Seq<char> {
    match length {
        Length::Shrink => "auto"@,
        Length::Units(units) => spec_decimal(units as nat) + "px"@,
        Length::Fill => "100%"@,
        Length::FillPortion(_) => "100%"@,
    }
}

/// Appends what a sizing policy is in a style to `text`.
pub fn push_length(text: &mut String, length: Length)
    ensures
        final(text)@ == old(text)@ + spec_length(length),
{
    match length {
        Length::Shrink => text.append("auto"),
        Length::Units(units) => {
            push_decimal(text, units as u32);
            text.append("px");
            assert(text@ =~= old(text)@ + spec_length(length));
        },
        Length::Fill => text.append("100%"),
        Length::FillPortion(_) => text.append("100%"),
    }
}

/// Returns what a sizing policy is in a style.
pub fn length(policy: Length) -> (text: String)
    ensures
        text@ == spec_length(policy),
{
    let mut text = String::new();
    push_length(&mut text, policy);
    assert(text@ =~= spec_length(policy));
    text
}

/// What an alignment is in a style.
pub open spec fn spec_align(align: Align) -> Seq<char> {
    match align {
        Align::Start => "flex-start"@,
        Align::Center => "center"@,
        Align::End => "flex-end"@,
    }
}

/// Returns what an alignment is in a style.
pub fn align(alignment: Align) -> (text: &'static str)
    ensures
        text@ == spec_align(alignment),
{
    match alignment {
        Align::Start => "flex-start",
        Align::Center => "center",
        Align::End => "flex-end",
    }
}

impl Style {
    /// The name of the class of the style.
    pub open spec fn spec_class(&self) -> Seq<char> {
        match self {
            Style::Column => "c"@,
            Style::Row => "r"@,
            Style::Padding(padding) => "p-"@ + spec_decimal(*padding as nat),
            Style::Spacing(spacing) => "s-"@ + spec_decimal(*spacing as nat),
        }
    }

    /// Appends the name of the class of the style to `text`.
    pub fn push_class(&self, text: &mut String)
        ensures
            final(text)@ == old(text)@ + self.spec_class(),
    {
        match self {
            Style::Column => text.append("c"),
            Style::Row => text.append("r"),
            Style::Padding(padding) => {
                text.append("p-");
                push_decimal(text, *padding as u32);
                assert(text@ =~= old(text)@ + self.spec_class());
            },
            Style::Spacing(spacing) => {
                text.append("s-");
                push_decimal(text, *spacing as u32);
                assert(text@ =~= old(text)@ + self.spec_class());
            },
        }
    }

    /// Returns the name of the class of the style.
    pub fn class(&self) -> (name: String)
        ensures
            name@ == self.spec_class(),
    {
        let mut name = String::new();
        self.push_class(&mut name);
        assert(name@ =~= self.spec_class());
        name
    }
}

/// The styles that the widgets of a page use, each once, in the order in
/// which they were first asked for.
#[derive(Debug)]
pub struct Sheet {
    styles: Vec<Style>,
}

/// The styles `styles` with `style` behind them, unless it is among them.
pub open spec fn spec_with(styles: Seq<Style>, style: Style) -> Seq<Style> {
    if styles.contains(style) {
        styles
    } else {
        styles.push(style)
    }
}

impl Sheet {
    /// The styles of the sheet, in the order in which they were first asked
    /// for.
    pub closed spec fn view(&self) -> Seq<Style> {
        self.styles@
    }

    /// Creates a sheet without styles.
    pub fn new() -> (sheet: Sheet)
        ensures
            sheet@ == Seq::<Style>::empty(),
    {
        Sheet { styles: Vec::new() }
    }

    /// Makes sure that `style` is in the sheet, and returns the name of its
    /// class.
    pub fn insert(&mut self, style: Style) -> (class: String)
        ensures
            final(self)@ == spec_with(old(self)@, style),
            class@ == style.spec_class(),
    {
        let mut index: usize = 0;
        let mut found = false;
        while index < self.styles.len()
            invariant
                index <= self.styles@.len(),
                self.styles@ == old(self).styles@,
                found == self.styles@.take(index as int).contains(style),
            decreases self.styles@.len() - index,
        {
            if self.styles[index] == style {
                found = true;
            }
            proof {
                let before = self.styles@.take(index as int);
                let after = self.styles@.take(index + 1);
                assert(after =~= before.push(self.styles@[index as int]));
                if found {
                    if self.styles@[index as int] == style {
                        assert(after[index as int] == style);
                    } else {
                        let i = choose|i: int| 0 <= i < before.len() && before[i] == style;
                        assert(after[i] == style);
                    }
                } else {
                    if after.contains(style) {
                        let i = choose|i: int| 0 <= i < after.len() && after[i] == style;
                        assert(before[i] == style);
                    }
                }
            }
            index = index + 1;
        }
        assert(self.styles@.take(index as int) =~= self.styles@);
        if !found {
            self.styles.push(style);
        }
        style.class()
    }

    /// Returns the styles of the sheet, in the order in which they were
    /// first asked for.
    pub fn styles(&self) -> (styles: &Vec<Style>)
        ensures
            styles@ == self@,
    {
        &self.styles
    }
}

} // verus!
