//! What becomes of a shader or a program once the graphics layer has tried
//! to build it.

use vstd::prelude::*;

verus! {

/// Judges a shader compilation. `created` says whether a shader object
/// could be had at all, `status` is the compile status as far as it could be
/// read, `log` the compiler's log if there is one.
pub fn compile_shader(created: bool, status: Option<bool>, log: Option<String>) -> (res: Result<
    (),
    String,
>)
    ensures
        res.is_ok() <==> created && status == Some(true),
        match res {
            Ok(_) => true,
            Err(msg) => if !created {
                msg@ == "Unable to create shader object"@
            } else {
                match log {
                    Some(text) => msg@ == text@,
                    None => msg@ == "Unknown error creating shader"@,
                }
            },
        },
{
    if !created {
        return Err("Unable to create shader object".to_owned());
    }
    match status {
        Some(true) => Ok(()),
        _ => match log {
            Some(text) => Err(text),
            None => Err("Unknown error creating shader".to_owned()),
        },
    }
}

/// Judges the linking of a program, as `compile_shader` judges a
/// compilation.
pub fn link_program(created: bool, status: Option<bool>, log: Option<String>) -> (res: Result<
    (),
    String,
>)
    ensures
        res.is_ok() <==> created && status == Some(true),
        match res {
            Ok(_) => true,
            Err(msg) => if !created {
                msg@ == "Unable to create shader object"@
            } else {
                match log {
                    Some(text) => msg@ == text@,
                    None => msg@ == "Unknown error creating program object"@,
                }
            },
        },
{
    if !created {
        return Err("Unable to create shader object".to_owned());
    }
    match status {
        Some(true) => Ok(()),
        _ => match log {
            Some(text) => Err(text),
            None => Err("Unknown error creating program object".to_owned()),
        },
    }
}

} // verus!
