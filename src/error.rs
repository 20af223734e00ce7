use vstd::prelude::*;
use zbus::fdo::Error as FdoError;
use zbus::zvariant::Error as VariantError;
use zbus::Error as BusError;

verus! {

/// The bus transport's error type, carried through unchanged.
#[verifier::external_type_specification]
#[verifier::external_body]
pub struct ExBusError(BusError);

/// The error type of the standard `org.freedesktop.DBus` interfaces, carried through unchanged.
#[verifier::external_type_specification]
#[verifier::external_body]
pub struct ExFdoError(FdoError);

/// The error type of the bus value encoding, carried through unchanged.
#[verifier::external_type_specification]
#[verifier::external_body]
pub struct ExVariantError(VariantError);

/// Everything that can go wrong when talking to a player.
#[derive(Debug)]
pub enum Error {
    /// An operation needs a selected player and none is selected.
    NoPlayerFound,
    /// An explicit selection named a service that was not discovered.
    PlayerNotFound(String),
    /// The bus transport failed.
    DBus(BusError),
    /// A standard bus interface reported an error.
    DBusFdo(FdoError),
    /// A value could not be encoded or decoded for the bus.
    ZVariant(VariantError),
}

pub type Result<T> = core::result::Result<T, Error>;

} // verus!
