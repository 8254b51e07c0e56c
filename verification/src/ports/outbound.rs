//! Outbound ports. Writes go through the aggregate roots, reads take
//! projections; the two sides are separate.

pub mod query;
pub mod repository;

use vstd::prelude::*;

use crate::text::{decimal, push_decimal};

verus! {

/// Why an outbound dependency failed.
#[derive(Debug, Clone, PartialEq, Eq)]
pub enum PortError {
    /// Storage is unavailable.
    Storage(String),
    /// An upstream request failed, with the status that came back.
    Upstream { status: u16, detail: String },
    /// Encryption or decryption failed.
    Cipher(String),
}

pub open spec fn port_error_text(e: PortError) -> Seq<char> {
    match e {
        PortError::Storage(reason) => "存储失败："@ + reason@,
        PortError::Upstream { status, detail } => "上游返回 "@ + decimal(status as nat) + "："@
            + detail@,
        PortError::Cipher(reason) => "加解密失败："@ + reason@,
    }
}

impl PortError {
    /// The message shown for this failure.
    pub fn to_string(&self) -> (r: String)
        ensures
            r@ == port_error_text(*self),
    {
        match self {
            PortError::Storage(reason) => {
                let mut out = String::from_str("存储失败：");
                out.append(reason.as_str());
                out
            },
            PortError::Upstream { status, detail } => {
                let mut out = String::from_str("上游返回 ");
                push_decimal(&mut out, *status as u64);
                out.append("：");
                out.append(detail.as_str());
                out
            },
            PortError::Cipher(reason) => {
                let mut out = String::from_str("加解密失败：");
                out.append(reason.as_str());
                out
            },
        }
    }
}

} // verus!
