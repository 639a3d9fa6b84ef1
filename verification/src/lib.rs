//! A progressive unlock engine: a fixed catalog of abilities, each gated by a
//! rarity tier and by prerequisite abilities, with a selector for the ability
//! to offer next and a redemption protocol that turns a secret code into an
//! activated ability.

pub mod activation;
pub mod code;
pub mod kind;
pub mod random;
pub mod rarity;
pub mod resource;
pub mod unlocks;

pub use activation::CheatCodeActivationResult;
pub use code::CheatCode;
pub use kind::CheatCodeKind;
pub use random::generate_random_code;
pub use rarity::CheatCodeRarity;
pub use resource::CheatCodeResource;
pub use unlocks::Unlocks;
