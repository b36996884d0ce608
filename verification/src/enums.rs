//! Kinds of IP address and ways to attach data to them, and a message with
//! variants of several shapes.

use vstd::prelude::*;

verus! {

/// The two kinds of IP address.
pub enum IpAddrKind {
    V4,
    V6,
}

/// Makes one address kind of each.
pub fn enums() {
    let four = IpAddrKind::V4;
    let six = IpAddrKind::V6;
}

/// Takes an address kind of either variant.
pub fn route(ip_kind: IpAddrKind) {
}

/// Routes an address kind of each variant.
pub fn call_route() {
    route(IpAddrKind::V4);
    route(IpAddrKind::V6);
}

/// An address as a kind with the address beside it.
pub struct IpAddr {
    pub kind: IpAddrKind,
    pub address: String,
}

/// An address as a kind that holds the address.
pub enum IpAddrWithTypes {
    V4(String),
    V6(String),
}

/// Makes a home address of each kind.
pub fn use_enum_with_data() {
    let home = IpAddrWithTypes::V4(String::from_str("127.0.0.1"));
    let home = IpAddrWithTypes::V6(String::from_str("::1"));
}

/// An address whose two kinds hold data of different shapes.
pub enum IpAddrWithDiffTypes {
    V4(u8, u8, u8, u8),
    V6(String),
}

/// A version four address.
pub struct IpV4Addr {}

/// A version six address.
pub struct IpV6Addr {}

/// An address whose kinds hold a type of their own each.
pub enum IpAddrWithStructs {
    V4(IpV4Addr),
    V6(IpV6Addr),
}

/// A message, in one of four shapes.
pub enum Message {
    /// No data.
    Quit,
    /// Two named numbers.
    Move { x: i32, y: i32 },
    /// One text.
    Write(String),
    /// Three numbers.
    ChangeColour(i32, i32, i32),
}

} // verus!
