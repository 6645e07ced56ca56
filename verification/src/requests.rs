//! The requests that the example client sends: the arguments of each remote
//! function, with the function's id and whether its arguments may be pipelined.

use crate::pipelining::MaybePipelinedValue;
use vstd::prelude::*;

verus! {

/// `add(arg0, arg1) -> u32`.
#[derive(Debug)]
pub struct Add {
    pub arg0: u32,
    pub arg1: u32,
}

impl Add {
    pub const FUNCTION_ID: u32 = 1337;
    pub const IS_PIPELINED: bool = false;
}

/// `add` with pipelined arguments.
#[derive(Debug)]
pub struct AddPipelined {
    pub arg0: MaybePipelinedValue<u32>,
    pub arg1: MaybePipelinedValue<u32>,
}

impl AddPipelined {
    pub const FUNCTION_ID: u32 = 1337;
    pub const IS_PIPELINED: bool = true;
}

/// `append_string(arg0, arg1) -> String`.
#[derive(Debug)]
pub struct AppendString {
    pub arg0: String,
    pub arg1: String,
}

impl AppendString {
    pub const FUNCTION_ID: u32 = 1234;
    pub const IS_PIPELINED: bool = false;
}

/// `append_string` with pipelined arguments.
#[derive(Debug)]
pub struct AppendStringPipelined {
    pub arg0: MaybePipelinedValue<String>,
    pub arg1: MaybePipelinedValue<String>,
}

impl AppendStringPipelined {
    pub const FUNCTION_ID: u32 = 1234;
    pub const IS_PIPELINED: bool = true;
}

/// `range_vec(arg0) -> Vec<u32>`.
#[derive(Debug)]
pub struct RangeVec {
    pub arg0: u32,
}

impl RangeVec {
    pub const FUNCTION_ID: u32 = 4321;
    pub const IS_PIPELINED: bool = false;
}

/// `range_vec` with a pipelined argument.
#[derive(Debug)]
pub struct RangeVecPipelined {
    pub arg0: MaybePipelinedValue<u32>,
}

impl RangeVecPipelined {
    pub const FUNCTION_ID: u32 = 4321;
    pub const IS_PIPELINED: bool = true;
}

/// `call_me_to_panic() -> ()`.
#[derive(Debug)]
pub struct CallMeToPanic;

impl CallMeToPanic {
    pub const FUNCTION_ID: u32 = 1111;
    pub const IS_PIPELINED: bool = false;
}

/// `call_me_to_panic` sent as a pipelined call.
#[derive(Debug)]
pub struct CallMeToPanicPipelined;

impl CallMeToPanicPipelined {
    pub const FUNCTION_ID: u32 = 1111;
    pub const IS_PIPELINED: bool = true;
}

} // verus!
