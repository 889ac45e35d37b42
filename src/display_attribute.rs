use vstd::prelude::*;

verus! {

/// How the line under composed text is drawn.
#[derive(Clone, Copy, Debug, PartialEq, Eq, Structural)]
pub enum LineStyle {
    Absent,
    Solid,
    Dot,
    Dash,
    Squiggle,
}

/// What stage of conversion the marked text is in.
#[derive(Clone, Copy, Debug, PartialEq, Eq, Structural)]
pub enum AttrKind {
    Input,
    TargetConverted,
    Converted,
    TargetNotConverted,
    InputError,
    FixedConverted,
    Other,
}

/// The look the host gives composed text; the colors are left to the host.
#[derive(Clone, Copy, Debug, PartialEq, Eq, Structural)]
pub struct DisplayAttribute {
    pub line_style: LineStyle,
    pub bold_line: bool,
    pub attr: AttrKind,
}

/// The one display attribute of this input method: a plain solid underline under input.
pub struct DisplayAttributeInfo;

impl DisplayAttributeInfo {
    pub fn create() -> (r: DisplayAttributeInfo) {
        DisplayAttributeInfo
    }

    pub fn get_attribute_info(&self) -> (r: DisplayAttribute)
        ensures
            r == (DisplayAttribute { line_style: LineStyle::Solid, bold_line: false, attr: AttrKind::Input }),
    {
        DisplayAttribute { line_style: LineStyle::Solid, bold_line: false, attr: AttrKind::Input }
    }
}

} // verus!
