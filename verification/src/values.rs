//! Leaf value types whose rendered text the elements embed: link targets,
//! line caps, and aspect-ratio policies.

use vstd::prelude::*;

use crate::attrs::opt_attr_frag;
use crate::attrs::push_attr;

verus! {

/// The target of a link element.
#[derive(Debug)]
pub enum Target {
    _Self,
    _Parent,
    _Top,
    _Blank,
    Custom(String),
}

/// The text a target renders to.
pub open spec fn spec_target_text(t: Target) -> Seq<char> {
    match t {
        Target::_Self => "_self"@,
        Target::_Parent => "_parent"@,
        Target::_Top => "_top"@,
        Target::_Blank => "_blank"@,
        Target::Custom(s) => s@,
    }
}

impl Target {
    /// Renders the target as attribute text.
    pub fn text(&self) -> (r: String)
        ensures
            r@ == spec_target_text(*self),
    {
        match self {
            Target::_Self => "_self".to_owned(),
            Target::_Parent => "_parent".to_owned(),
            Target::_Top => "_top".to_owned(),
            Target::_Blank => "_blank".to_owned(),
            Target::Custom(s) => s.as_str().to_owned(),
        }
    }
}

impl Clone for Target {
    /// The clone renders to the same text.
    fn clone(&self) -> (r: Self)
        ensures
            spec_target_text(r) == spec_target_text(*self),
    {
        match self {
            Target::_Self => Target::_Self,
            Target::_Parent => Target::_Parent,
            Target::_Top => Target::_Top,
            Target::_Blank => Target::_Blank,
            Target::Custom(s) => Target::Custom(s.clone()),
        }
    }
}

/// Clones an optional target value, preserving its attribute text.
pub fn clone_opt_target(v: &Option<Target>) -> (r: Option<Target>)
    ensures
        ov_target(r) == ov_target(*v),
{
    match v {
        Option::Some(t) => Option::Some(t.clone()),
        Option::None => Option::None,
    }
}

/// The attribute text of an optional target field.
pub open spec fn ov_target(v: Option<Target>) -> Option<Seq<char>> {
    match v {
        Option::Some(t) => Option::Some(spec_target_text(t)),
        Option::None => Option::None,
    }
}

/// Appends the fragment of an optional target attribute to `out`.
pub fn push_opt_target_attr(out: &mut String, name: &str, value: &Option<Target>)
    ensures
        final(out)@ == old(out)@ + opt_attr_frag(name@, ov_target(*value)),
{
    match value {
        Option::Some(t) => {
            let text = t.text();
            push_attr(out, name, text.as_str());
        },
        Option::None => (),
    }
}

/// A stroke's line-cap keyword.
#[derive(Debug, Clone)]
pub enum LineCap {
    Butt,
    Round,
    Square,
    Inherit,
    Initial,
    Revert,
    RevertLayer,
    Unset,
}

/// The text a line cap renders to.
pub open spec fn spec_line_cap_text(c: LineCap) -> Seq<char> {
    match c {
        LineCap::Butt => "butt"@,
        LineCap::Round => "round"@,
        LineCap::Square => "square"@,
        LineCap::Inherit => "inherit"@,
        LineCap::Initial => "initial"@,
        LineCap::Revert => "revert"@,
        LineCap::RevertLayer => "revert-layer"@,
        LineCap::Unset => "unset"@,
    }
}

impl LineCap {
    /// Renders the line cap as attribute text.
    pub fn text(&self) -> (r: String)
        ensures
            r@ == spec_line_cap_text(*self),
    {
        match self {
            LineCap::Butt => "butt".to_owned(),
            LineCap::Round => "round".to_owned(),
            LineCap::Square => "square".to_owned(),
            LineCap::Inherit => "inherit".to_owned(),
            LineCap::Initial => "initial".to_owned(),
            LineCap::Revert => "revert".to_owned(),
            LineCap::RevertLayer => "revert-layer".to_owned(),
            LineCap::Unset => "unset".to_owned(),
        }
    }
}

/// The alignment policy for a viewport's aspect ratio.
#[derive(Debug, Clone)]
pub enum PreserveAspectRatio {
    Unaligned,
    XMinYMin,
    XMidYMin,
    XMaxYMin,
    XMinYMid,
    XMidYMid,
    XMaxYMid,
    XMinYMax,
    XMidYMax,
    XMaxYMax,
}

/// The text an aspect-ratio policy renders to.
pub open spec fn spec_preserve_aspect_ratio_text(p: PreserveAspectRatio) -> Seq<char> {
    match p {
        PreserveAspectRatio::Unaligned => "None"@,
        PreserveAspectRatio::XMinYMin => "xMinYMin"@,
        PreserveAspectRatio::XMidYMin => "xMidYMin"@,
        PreserveAspectRatio::XMaxYMin => "xMaxYMin"@,
        PreserveAspectRatio::XMinYMid => "xMinYMid"@,
        PreserveAspectRatio::XMidYMid => "xMidYMid"@,
        PreserveAspectRatio::XMaxYMid => "xMaxYMid"@,
        PreserveAspectRatio::XMinYMax => "xMinYMax"@,
        PreserveAspectRatio::XMidYMax => "xMidYMax"@,
        PreserveAspectRatio::XMaxYMax => "xMaxYMax"@,
    }
}

impl PreserveAspectRatio {
    /// Renders the policy as attribute text.
    pub fn text(&self) -> (r: String)
        ensures
            r@ == spec_preserve_aspect_ratio_text(*self),
    {
        match self {
            PreserveAspectRatio::Unaligned => "None".to_owned(),
            PreserveAspectRatio::XMinYMin => "xMinYMin".to_owned(),
            PreserveAspectRatio::XMidYMin => "xMidYMin".to_owned(),
            PreserveAspectRatio::XMaxYMin => "xMaxYMin".to_owned(),
            PreserveAspectRatio::XMinYMid => "xMinYMid".to_owned(),
            PreserveAspectRatio::XMidYMid => "xMidYMid".to_owned(),
            PreserveAspectRatio::XMaxYMid => "xMaxYMid".to_owned(),
            PreserveAspectRatio::XMinYMax => "xMinYMax".to_owned(),
            PreserveAspectRatio::XMidYMax => "xMidYMax".to_owned(),
            PreserveAspectRatio::XMaxYMax => "xMaxYMax".to_owned(),
        }
    }
}

} // verus!

verus! {

/// A bare length value; it renders as its numeric text alone.
#[derive(Debug, Clone)]
pub struct Length {
    pub length: String,
}

/// The text a length renders to.
pub open spec fn spec_length_text(l: Length) -> Seq<char> {
    l.length@
}

impl Length {
    /// Wraps an already-rendered numeric text.
    pub fn new(length: String) -> (r: Self)
        ensures
            r.length == length,
    {
        Length { length }
    }

    /// Renders the length as attribute text.
    pub fn text(&self) -> (r: String)
        ensures
            r@ == spec_length_text(*self),
    {
        self.length.as_str().to_owned()
    }
}

/// A percentage value; it renders as its numeric text with a `%` sign.
#[derive(Debug, Clone)]
pub struct Percentage {
    pub percentage: String,
}

/// The text a percentage renders to.
pub open spec fn spec_percentage_text(p: Percentage) -> Seq<char> {
    p.percentage@ + "%"@
}

impl Percentage {
    /// Wraps an already-rendered numeric text.
    pub fn new(percentage: String) -> (r: Self)
        ensures
            r.percentage == percentage,
    {
        Percentage { percentage }
    }

    /// Renders the percentage as attribute text.
    pub fn text(&self) -> (r: String)
        ensures
            r@ == spec_percentage_text(*self),
    {
        let mut out = self.percentage.as_str().to_owned();
        out.append("%");
        out
    }
}

/// A value that is either a length or a percentage.
#[derive(Debug, Clone)]
pub enum LengthOrPercentage {
    Length(Length),
    Percentage(Percentage),
}

/// The text such a value renders to.
pub open spec fn spec_length_or_percentage_text(v: LengthOrPercentage) -> Seq<char> {
    match v {
        LengthOrPercentage::Length(l) => spec_length_text(l),
        LengthOrPercentage::Percentage(p) => spec_percentage_text(p),
    }
}

impl LengthOrPercentage {
    /// Renders the value as attribute text.
    pub fn text(&self) -> (r: String)
        ensures
            r@ == spec_length_or_percentage_text(*self),
    {
        match self {
            LengthOrPercentage::Length(l) => l.text(),
            LengthOrPercentage::Percentage(p) => p.text(),
        }
    }
}

/// A value that is a length, a percentage, or the `auto` keyword.
#[derive(Debug, Clone)]
pub enum AutoOrLengthOrPercentage {
    Length(Length),
    Percentage(Percentage),
    Auto,
}

/// The text such a value renders to.
pub open spec fn spec_auto_or_length_or_percentage_text(v: AutoOrLengthOrPercentage) -> Seq<
    char,
> {
    match v {
        AutoOrLengthOrPercentage::Length(l) => spec_length_text(l),
        AutoOrLengthOrPercentage::Percentage(p) => spec_percentage_text(p),
        AutoOrLengthOrPercentage::Auto => "auto"@,
    }
}

impl AutoOrLengthOrPercentage {
    /// Renders the value as attribute text.
    pub fn text(&self) -> (r: String)
        ensures
            r@ == spec_auto_or_length_or_percentage_text(*self),
    {
        match self {
            AutoOrLengthOrPercentage::Length(l) => l.text(),
            AutoOrLengthOrPercentage::Percentage(p) => p.text(),
            AutoOrLengthOrPercentage::Auto => "auto".to_owned(),
        }
    }
}

/// A viewport box: origin and size, rendered as a comma-separated list.
#[derive(Debug, Clone)]
pub struct ViewBoxSize {
    pub min_x: String,
    pub min_y: String,
    pub width: String,
    pub height: String,
}

/// The text a viewport box renders to.
pub open spec fn spec_view_box_text(v: ViewBoxSize) -> Seq<char> {
    v.min_x@ + ", "@ + v.min_y@ + ", "@ + v.width@ + ", "@ + v.height@
}

impl ViewBoxSize {
    /// A box from its four already-rendered values.
    pub fn new(min_x: String, min_y: String, width: String, height: String) -> (r: Self)
        ensures
            r.min_x == min_x,
            r.min_y == min_y,
            r.width == width,
            r.height == height,
    {
        ViewBoxSize { min_x, min_y, width, height }
    }

    /// Renders the box as attribute text.
    pub fn text(&self) -> (r: String)
        ensures
            r@ == spec_view_box_text(*self),
    {
        let mut out = self.min_x.as_str().to_owned();
        out.append(", ");
        out.append(self.min_y.as_str());
        out.append(", ");
        out.append(self.width.as_str());
        out.append(", ");
        out.append(self.height.as_str());
        out
    }
}

} // verus!

verus! {

impl From<Length> for LengthOrPercentage {
    /// Wraps a bare length.
    fn from(length: Length) -> (r: Self)
        ensures
            r == LengthOrPercentage::Length(length),
    {
        LengthOrPercentage::Length(length)
    }
}

impl vstd::std_specs::convert::FromSpecImpl<Length> for LengthOrPercentage {
    open spec fn obeys_from_spec() -> bool {
        true
    }

    open spec fn from_spec(t: Length) -> Self {
        LengthOrPercentage::Length(t)
    }
}

impl From<Percentage> for LengthOrPercentage {
    /// Wraps a percentage.
    fn from(percentage: Percentage) -> (r: Self)
        ensures
            r == LengthOrPercentage::Percentage(percentage),
    {
        LengthOrPercentage::Percentage(percentage)
    }
}

impl vstd::std_specs::convert::FromSpecImpl<Percentage> for LengthOrPercentage {
    open spec fn obeys_from_spec() -> bool {
        true
    }

    open spec fn from_spec(t: Percentage) -> Self {
        LengthOrPercentage::Percentage(t)
    }
}

impl From<Length> for AutoOrLengthOrPercentage {
    /// Wraps a bare length.
    fn from(length: Length) -> (r: Self)
        ensures
            r == AutoOrLengthOrPercentage::Length(length),
    {
        AutoOrLengthOrPercentage::Length(length)
    }
}

impl vstd::std_specs::convert::FromSpecImpl<Length> for AutoOrLengthOrPercentage {
    open spec fn obeys_from_spec() -> bool {
        true
    }

    open spec fn from_spec(t: Length) -> Self {
        AutoOrLengthOrPercentage::Length(t)
    }
}

impl From<Percentage> for AutoOrLengthOrPercentage {
    /// Wraps a percentage.
    fn from(percentage: Percentage) -> (r: Self)
        ensures
            r == AutoOrLengthOrPercentage::Percentage(percentage),
    {
        AutoOrLengthOrPercentage::Percentage(percentage)
    }
}

impl vstd::std_specs::convert::FromSpecImpl<Percentage> for AutoOrLengthOrPercentage {
    open spec fn obeys_from_spec() -> bool {
        true
    }

    open spec fn from_spec(t: Percentage) -> Self {
        AutoOrLengthOrPercentage::Percentage(t)
    }
}

} // verus!
