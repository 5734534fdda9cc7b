//! What the command line decides.

use vstd::prelude::*;
use crate::errors::PathError;
use crate::scalar::Scalar;

verus! {

/// The bit pattern of `6.0`.
pub const DEFAULT_RATE_BITS: u64 = 0x4018_0000_0000_0000;

/// How many arguments were given besides the program's name.
pub open spec fn given(args: Seq<String>) -> int {
    if args.len() == 0 {
        0
    } else {
        args.len() - 1
    }
}

/// The file name on a command line, which holds the program's name and then
/// the arguments: there must be one argument, the file name.
///
/// Any other number of arguments is an error that tells the number given.
pub fn get_file_name(args: &Vec<String>) -> (r: Result<String, PathError>)
    ensures
        match r {
            Ok(name) => args.len() == 2 && name@ == args[1]@,
            Err(e) => args.len() != 2 && e == PathError::InvalidArguments(given(args@) as usize),
        },
{
    if args.len() == 0 {
        Err(PathError::InvalidArguments(0))
    } else if args.len() != 2 {
        Err(PathError::InvalidArguments(args.len() - 1))
    } else {
        Ok(args[1].clone())
    }
}

/// The rate, in events per second, at which the path is sent: the one asked
/// for, and `6.0` where none is.
pub fn rate_or_default(rate: Option<Scalar>) -> (r: Scalar)
    ensures
        r == match rate {
            Some(asked) => asked,
            None => Scalar { bits: DEFAULT_RATE_BITS },
        },
{
    match rate {
        Some(asked) => asked,
        None => Scalar { bits: DEFAULT_RATE_BITS },
    }
}

} // verus!
