use vstd::prelude::*;
use vstd::string::StringExecFns;

verus! {

/// How the viewport moves when a scroll instruction is carried out.
///
/// The engine passes the configured behavior through unchanged; translating
/// it into the host environment's native scroll-behavior value is the host
/// adapter's job.
#[derive(Clone, Copy, PartialEq, Eq, Structural, Debug)]
pub enum Behavior {
    Auto,
    Instant,
    Smooth,
}

/// The markup of the built-in arrow icon, as a sequence of characters.
pub open spec fn default_svg_markup() -> Seq<char> {
    "<svg xmlns=\"http://www.w3.org/2000/svg\" fill=\"none\" viewBox=\"0 0 24 24\" stroke=\"currentColor\" style=\"width: 16px; height: 16px;\"><path stroke-linecap=\"round\" stroke-linejoin=\"round\" stroke-width=\"2\" d=\"M5 10l7-7m0 0l7 7m-7-7v18\"/></svg>"@
}

/// Markup of the arrow icon shown on the button when the host supplies no
/// content of its own.
pub fn default_svg() -> (markup: String)
    ensures
        markup@ == default_svg_markup(),
{
    String::from_str(
        "<svg xmlns=\"http://www.w3.org/2000/svg\" fill=\"none\" viewBox=\"0 0 24 24\" stroke=\"currentColor\" style=\"width: 16px; height: 16px;\"><path stroke-linecap=\"round\" stroke-linejoin=\"round\" stroke-width=\"2\" d=\"M5 10l7-7m0 0l7 7m-7-7v18\"/></svg>",
    )
}

} // verus!
