//! A growable buffer for calls that fill a caller-supplied buffer whose
//! sufficient size is only known once the call has been tried.

pub mod base;
pub mod buffer;
pub mod generic;
pub mod growable;
pub mod strategy;
pub mod traits;
pub mod win;
pub mod winstr;

pub use crate::base::{FillBufferAction, FillBufferError, FillBufferResult};
pub use crate::buffer::StackBuffer;
pub use crate::growable::{Argument, FrozenBuffer, GrowableBuffer};
pub use crate::strategy::{
    GrowByDoubleWithNull, GrowForSmallBinary, GrowForStaticText, GrowForStoredIsReturned,
    GrowToNearestNibble, GrowToNearestNibbleWithNull, GrowToNearestQuarterKibi, ALIGNMENT,
    SIZE_OF_WCHAR,
};
pub use crate::traits::{
    Bytes, GrowStrategy, NeededSize, RawToInternal, ReadBuffer, ToResult, WriteBuffer,
};
pub use crate::win::{
    RvIsError, RvIsSize, CAPACITY_FOR_NAMES, CAPACITY_FOR_PATHS, FLOOR_FOR_PATHS,
};
pub use crate::generic::{
    winapi_binary, winapi_generic, winapi_large_binary, winapi_small_binary, winapi_string,
    winapi_wide,
};
pub use crate::winstr::{WindowsPathString, WindowsString, WindowsStringError};
