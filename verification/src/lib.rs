//! A distributed group signature scheme with threshold opening, built on the
//! BBS short group signature over the BLS12-381 pairing.
//!
//! Three group managers each hold a share of the opening secret.  Members
//! sign anonymously on behalf of the group; a signature can be attributed to
//! its signer only when all three managers contribute an opening share.

pub mod algebra;
pub mod codec;
pub mod field;
pub mod gm;
pub mod keys;
pub mod laws;
pub mod opener;
pub mod protocol;
pub mod utils;

pub use crate::keys::CombinedGPK;
pub use crate::keys::CombinedUSK;
pub use crate::keys::OPK;
pub use crate::keys::OSK;
pub use crate::keys::PairingCurve;
pub use crate::keys::PartialGPK;
pub use crate::keys::PartialGSK;
pub use crate::keys::PartialUSK;
pub use crate::protocol::SignCredAfterHashing;
pub use crate::protocol::SignCredBeforeHashing;
pub use crate::protocol::Signature;
pub use crate::protocol::open_combain;
pub use crate::protocol::process_sign_after_hash;
pub use crate::protocol::process_sign_before_hash;
pub use crate::protocol::sign;
pub use crate::protocol::verify;
