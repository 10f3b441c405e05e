//! Client-side view of the LE Audio services.
use vstd::prelude::*;

verus! {

/// A client of an LE Audio service. Discovery and subscription run in
/// the transport; the marker trait names what a client-side service
/// binding implements.
pub trait LeAudioClientService {

}

} // verus!
