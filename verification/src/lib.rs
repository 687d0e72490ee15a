//! Verified core of the bindings for the NVIDIA Nsight Graphics SDK.
//!
//! The SDK itself is reached through a C function table; the calls into it
//! stand in the application layer. This crate holds what is decided around
//! those calls: how a raw SDK result becomes a `Result`, how parameter
//! structs are versioned, how paths are handed to the SDK, which activity
//! code an activity maps to, and the decisions of the default library loader
//! and of the install-path probe.

use vstd::prelude::*;
use vstd::string::StringSliceAdditionalSpecFns;

pub mod vulkan;
pub mod graphics_capture;
pub mod install;
pub mod loader;

verus! {

/// The result codes of the SDK (`NGFX_Result`), as this crate sees them:
/// success, the code of a table entry that no activity has filled in, and
/// every other code by its raw value.
#[derive(Debug, Clone, Copy, PartialEq, Eq, Structural)]
pub enum RawResult {
    Success,
    NotImplemented,
    Other(i32),
}

/// A failed SDK call, carrying the code the SDK returned.
#[derive(Debug, Clone, Copy, PartialEq, Eq, Structural)]
pub struct Error(pub RawResult);

/// The outcome of an SDK call.
pub type Result<T> = core::result::Result<T, Error>;

/// Turns the code of an SDK call into a `Result`: `Ok` exactly on success,
/// otherwise an error carrying the code.
pub fn check(r: RawResult) -> (res: Result<()>)
    ensures
        res is Ok <==> r == RawResult::Success,
        res matches Err(e) ==> e.0 == r,
{
    if r == RawResult::Success {
        Ok(())
    } else {
        Err(Error(r))
    }
}


/// The version word the SDK expects in a parameter struct of type `T`:
/// the struct's size in the low bits and `version` from bit 16 up
/// (`sizeof(T) | (version << 16)`, computed in 32 bits).
///
/// Where both the size and the version are below 2^16, the word decodes back
/// into them.
pub fn struct_version<T>(version: u32) -> (r: u32)
    ensures
        r == ((vstd::layout::size_of::<T>() as u32) | (version << 16u32)),
        vstd::layout::size_of::<T>() < 0x10000 && version < 0x10000 ==> {
            &&& r & 0xffffu32 == vstd::layout::size_of::<T>()
            &&& r >> 16u32 == version
        },
{
    let size: usize = core::mem::size_of::<T>();
    let low: u32 = size as u32;
    let r: u32 = low | (version << 16u32);
    proof {
        if size < 0x10000 && version < 0x10000 {
            assert(low == size);
            assert(r & 0xffffu32 == low && r >> 16u32 == version) by (bit_vector)
                requires
                    r == low | (version << 16u32),
                    low < 0x10000,
                    version < 0x10000,
            ;
        }
    }
    r
}

/// The activities the SDK offers.
#[derive(Debug, Clone, Copy, PartialEq, Eq, Structural)]
pub enum ActivityType {
    GraphicsCapture,
    GpuTrace,
    SystemProfiling,
}

/// The SDK's own activity codes (`NGFX_ActivityType`).
#[derive(Debug, Clone, Copy, PartialEq, Eq, Structural)]
pub enum SdkActivityType {
    GraphicsCapture,
    GPUTrace,
    SystemProfiling,
}

/// The SDK code of each activity.
pub open spec fn sdk_activity(a: ActivityType) -> SdkActivityType {
    match a {
        ActivityType::GraphicsCapture => SdkActivityType::GraphicsCapture,
        ActivityType::GpuTrace => SdkActivityType::GPUTrace,
        ActivityType::SystemProfiling => SdkActivityType::SystemProfiling,
    }
}

impl ActivityType {
    /// The SDK code of this activity.
    pub fn to_sys(self) -> (r: SdkActivityType)
        ensures
            r == sdk_activity(self),
    {
        match self {
            ActivityType::GraphicsCapture => SdkActivityType::GraphicsCapture,
            ActivityType::GpuTrace => SdkActivityType::GPUTrace,
            ActivityType::SystemProfiling => SdkActivityType::SystemProfiling,
        }
    }
}

/// Distinct activities have distinct SDK codes, and every SDK code belongs
/// to an activity: the mapping is one to one and onto.
pub proof fn lemma_sdk_activity_bijective(a: ActivityType, b: ActivityType, c: SdkActivityType)
    ensures
        sdk_activity(a) == sdk_activity(b) ==> a == b,
        exists|d: ActivityType| sdk_activity(d) == c,
{
    match c {
        SdkActivityType::GraphicsCapture => assert(sdk_activity(ActivityType::GraphicsCapture) == c),
        SdkActivityType::GPUTrace => assert(sdk_activity(ActivityType::GpuTrace) == c),
        SdkActivityType::SystemProfiling => assert(sdk_activity(ActivityType::SystemProfiling) == c),
    }
}

/// A path as the SDK reads it: the path's bytes followed by a NUL.
pub struct PathBuffer {
    bytes: Vec<u8>,
}

impl View for PathBuffer {
    type V = Seq<u8>;

    closed spec fn view(&self) -> Seq<u8> {
        self.bytes@
    }
}

impl PathBuffer {
    /// The bytes handed to the SDK, the terminating NUL included.
    pub fn as_slice(&self) -> (r: &[u8])
        ensures
            r@ == self@,
    {
        self.bytes.as_slice()
    }
}

/// Encodes `path` the way the SDK reads it: its UTF-8 bytes, then a NUL.
pub fn encode_path(path: &str) -> (r: PathBuffer)
    ensures
        r@ == path.spec_bytes().push(0u8),
{
    let src: &[u8] = path.as_bytes();
    let mut bytes: Vec<u8> = Vec::new();
    let n: usize = src.len();
    for i in 0..n
        invariant
            n == src@.len(),
            src@ == path.spec_bytes(),
            bytes@ == src@.take(i as int),
    {
        bytes.push(src[i]);
        assert(src@.take(i + 1) == src@.take(i as int).push(src@[i as int]));
    }
    assert(src@.take(n as int) == src@);
    bytes.push(0u8);
    PathBuffer { bytes }
}

} // verus!
