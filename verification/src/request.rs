//! Requests: what a producer asks the worker to render.

use vstd::prelude::*;

verus! {

/// `fast_qr::ECL`, the four error-correction levels of a QR code. Its variants carry no data.
#[verifier::external_type_specification]
pub struct ExEcl(fast_qr::ECL);

/// The error-correction choice as a user interface offers it: one of the four levels, or
/// `Default` to leave the choice to the generator.
#[derive(Clone, Copy, Debug, PartialEq, Eq, Structural)]
pub enum EcLevel {
    Default,
    L,
    M,
    Q,
    H,
}

impl EcLevel {
    /// The generator's level for this choice; `None` leaves the choice to the generator.
    pub open spec fn qr_enum(self) -> Option<fast_qr::ECL> {
        match self {
            EcLevel::Default => None,
            EcLevel::L => Some(fast_qr::ECL::L),
            EcLevel::M => Some(fast_qr::ECL::M),
            EcLevel::Q => Some(fast_qr::ECL::Q),
            EcLevel::H => Some(fast_qr::ECL::H),
        }
    }

    /// Converts the user interface's choice to the generator's level.
    pub fn to_qr_enum(&self) -> (level: Option<fast_qr::ECL>)
        ensures
            level == self.qr_enum(),
    {
        match self {
            EcLevel::Default => None,
            EcLevel::L => Some(fast_qr::ECL::L),
            EcLevel::M => Some(fast_qr::ECL::M),
            EcLevel::Q => Some(fast_qr::ECL::Q),
            EcLevel::H => Some(fast_qr::ECL::H),
        }
    }
}

/// One unit of work: the text to encode and, optionally, the error-correction level to use.
#[derive(Debug)]
pub struct QrGenerationRequest {
    pub data: String,
    pub correction_level: Option<fast_qr::ECL>,
}

/// A request as contracts see it.
pub struct RequestView {
    pub data: Seq<char>,
    pub correction_level: Option<fast_qr::ECL>,
}

impl View for QrGenerationRequest {
    type V = RequestView;

    open spec fn view(&self) -> RequestView {
        RequestView { data: self.data@, correction_level: self.correction_level }
    }
}

} // verus!
