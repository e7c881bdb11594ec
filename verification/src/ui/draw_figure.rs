//! Draw figures on the client UI.
use vstd::prelude::*;

use crate::ui::common::{AsCommand, Command};

verus! {

/// Operation on a figure.
#[derive(Debug, Clone, Copy, PartialEq, Eq)]
pub enum Operate {
    /// Code 0.
    NoOperation,
    /// Code 1.
    Add,
    /// Code 2.
    Modify,
    /// Code 3.
    Delete,
}

impl Operate {
    /// The wire code.
    pub open spec fn spec_code(self) -> u8 {
        match self {
            Operate::NoOperation => 0,
            Operate::Add => 1,
            Operate::Modify => 2,
            Operate::Delete => 3,
        }
    }

    /// The wire code.
    pub fn code(&self) -> (r: u8)
        ensures
            r == self.spec_code(),
    {
        match self {
            Operate::NoOperation => 0,
            Operate::Add => 1,
            Operate::Modify => 2,
            Operate::Delete => 3,
        }
    }
}

/// Shape of a figure.
#[derive(Debug, Clone, Copy, PartialEq, Eq)]
pub enum FigureType {
    /// Code 0.
    Line,
    /// Code 1.
    Rectangle,
    /// Code 2.
    Circle,
    /// Code 3.
    Ellipse,
    /// Code 4.
    Arc,
    /// Code 5.
    FloatingPoint,
    /// Code 6.
    IntegerNumber,
    /// Code 7.
    Character,
}

impl FigureType {
    /// The wire code.
    pub open spec fn spec_code(self) -> u8 {
        match self {
            FigureType::Line => 0,
            FigureType::Rectangle => 1,
            FigureType::Circle => 2,
            FigureType::Ellipse => 3,
            FigureType::Arc => 4,
            FigureType::FloatingPoint => 5,
            FigureType::IntegerNumber => 6,
            FigureType::Character => 7,
        }
    }

    /// The wire code.
    pub fn code(&self) -> (r: u8)
        ensures
            r == self.spec_code(),
    {
        match self {
            FigureType::Line => 0,
            FigureType::Rectangle => 1,
            FigureType::Circle => 2,
            FigureType::Ellipse => 3,
            FigureType::Arc => 4,
            FigureType::FloatingPoint => 5,
            FigureType::IntegerNumber => 6,
            FigureType::Character => 7,
        }
    }
}

/// Color of a figure.
#[derive(Debug, Clone, Copy, PartialEq, Eq)]
pub enum Color {
    /// Code 0.
    SelfColor,
    /// Code 1.
    Yellow,
    /// Code 2.
    Green,
    /// Code 3.
    Orange,
    /// Code 4.
    Magenta,
    /// Code 5.
    Pink,
    /// Code 6.
    Cyan,
    /// Code 7.
    Black,
    /// Code 8.
    White,
}

impl Color {
    /// The wire code.
    pub open spec fn spec_code(self) -> u8 {
        match self {
            Color::SelfColor => 0,
            Color::Yellow => 1,
            Color::Green => 2,
            Color::Orange => 3,
            Color::Magenta => 4,
            Color::Pink => 5,
            Color::Cyan => 6,
            Color::Black => 7,
            Color::White => 8,
        }
    }

    /// The wire code.
    pub fn code(&self) -> (r: u8)
        ensures
            r == self.spec_code(),
    {
        match self {
            Color::SelfColor => 0,
            Color::Yellow => 1,
            Color::Green => 2,
            Color::Orange => 3,
            Color::Magenta => 4,
            Color::Pink => 5,
            Color::Cyan => 6,
            Color::Black => 7,
            Color::White => 8,
        }
    }
}

/// The figure codes of the client UI protocol: operations none 0, add 1,
/// modify 2, delete 3; shapes line 0, rectangle 1, circle 2, ellipse 3, arc
/// 4, floating point number 5, integer 6, character 7; colors own team 0,
/// yellow 1, green 2, orange 3, magenta 4, pink 5, cyan 6, black 7, white 8.
pub proof fn lemma_figure_codes()
    ensures
        Operate::NoOperation.spec_code() == 0,
        Operate::Add.spec_code() == 1,
        Operate::Modify.spec_code() == 2,
        Operate::Delete.spec_code() == 3,
        FigureType::Line.spec_code() == 0,
        FigureType::Rectangle.spec_code() == 1,
        FigureType::Circle.spec_code() == 2,
        FigureType::Ellipse.spec_code() == 3,
        FigureType::Arc.spec_code() == 4,
        FigureType::FloatingPoint.spec_code() == 5,
        FigureType::IntegerNumber.spec_code() == 6,
        FigureType::Character.spec_code() == 7,
        Color::SelfColor.spec_code() == 0,
        Color::Yellow.spec_code() == 1,
        Color::Green.spec_code() == 2,
        Color::Orange.spec_code() == 3,
        Color::Magenta.spec_code() == 4,
        Color::Pink.spec_code() == 5,
        Color::Cyan.spec_code() == 6,
        Color::Black.spec_code() == 7,
        Color::White.spec_code() == 8,
{
}

/// Robot to Client
#[derive(Debug, Clone, Copy, PartialEq, Eq)]
pub struct IaFigure {
    pub name: [u8; 3],
    /// 3 bits.
    pub operate_type: u8,
    /// 3 bits.
    pub figure_type: u8,
    /// 4 bits.
    pub layer: u8,
    /// 4 bits.
    pub color: u8,
    /// 9 bits.
    pub details_a: u16,
    /// 9 bits.
    pub details_b: u16,
    /// 10 bits.
    pub width: u16,
    /// 11 bits.
    pub start_x: u16,
    /// 11 bits.
    pub start_y: u16,
    /// 10 bits.
    pub details_c: u16,
    /// 11 bits.
    pub details_d: u16,
    /// 11 bits.
    pub details_e: u16,
}

impl IaFigure {
    /// A figure with every field zero.
    pub fn new() -> (r: Self)
        ensures
            r.name@ == seq![0u8, 0u8, 0u8],
            r.operate_type == 0,
            r.figure_type == 0,
            r.layer == 0,
            r.color == 0,
            r.details_a == 0,
            r.details_b == 0,
            r.width == 0,
            r.start_x == 0,
            r.start_y == 0,
            r.details_c == 0,
            r.details_d == 0,
            r.details_e == 0,
    {
        let r = Self {
            name: [0u8; 3],
            operate_type: 0,
            figure_type: 0,
            layer: 0,
            color: 0,
            details_a: 0,
            details_b: 0,
            width: 0,
            start_x: 0,
            start_y: 0,
            details_c: 0,
            details_d: 0,
            details_e: 0,
        };
        assert(r.name@ =~= seq![0u8, 0u8, 0u8]);
        r
    }
}

impl AsCommand<15> for IaFigure {
    open spec fn spec_command(&self) -> Command {
        Command::DeleteLayer
    }

    /// The name, followed by twelve zero bytes.
    open spec fn spec_data(&self) -> Seq<u8> {
        self.name@ + Seq::new(12, |i: int| 0u8)
    }

    fn as_command(&self) -> (r: Command) {
        Command::DeleteLayer
    }

    fn as_data(&self) -> (r: [u8; 15]) {
        let mut data = [0u8; 15];
        data[0] = self.name[0];
        data[1] = self.name[1];
        data[2] = self.name[2];
        assert(data@ =~= self.spec_data());
        data
    }
}

} // verus!
