//! Wire 516: nine booleans packed into flag bits, plus a worker count.

use vstd::prelude::*;

use crate::error::ParseError;
use crate::events::{DecodedEvent, BuildModesEvent};
use crate::kryo;

verus! {

broadcast use crate::kryo::group_deep_view_eq;

pub struct BuildModesDecoder;

/// What decoding a wire-516 body yields.
pub open spec fn spec_decode(body: Seq<u8>) -> Result<BuildModesEvent, ParseError> {
    match kryo::spec_read_flags_u16_be(body, 0) {
        Err(e) => Err(e),
        Ok((fl, p0)) => {
            let r1: Result<(i32, int), ParseError> = if kryo::spec_field_present(fl, 9) {
                kryo::spec_read_positive_varint_i32(body, p0)
            } else {
                Ok((0, p0))
            };
            match r1 {
                Err(e) => Err(e),
                Ok((x1, p1)) => {
                    Ok(
                        BuildModesEvent {
                            max_workers: if kryo::spec_field_present(fl, 9) { Some(x1) } else { None },
                            refresh_dependencies: kryo::spec_field_present(fl, 0),
                            parallel_project_execution: kryo::spec_field_present(fl, 1),
                            rerun_tasks: kryo::spec_field_present(fl, 2),
                            continuous: kryo::spec_field_present(fl, 3),
                            continue_on_failure: kryo::spec_field_present(fl, 4),
                            configure_on_demand: kryo::spec_field_present(fl, 5),
                            daemon: kryo::spec_field_present(fl, 6),
                            offline: kryo::spec_field_present(fl, 7),
                            dry_run: kryo::spec_field_present(fl, 8),
                        },
                    )
                },
            }
        },
    }
}

impl BuildModesDecoder {
    /// Decodes a wire-516 body.
    pub fn decode(&self, body: &[u8]) -> (r: Result<DecodedEvent, ParseError>)
        ensures
            ({
                let sp = spec_decode(body@);
                match r {
                    Ok(d) => sp matches Ok(se) && d matches DecodedEvent::BuildModes(e)
                        && e.deep_view() == se,
                    Err(e) => sp == Err::<BuildModesEvent, ParseError>(e),
                }
            }),
    {
        let mut pos: usize = 0;
        let fl = kryo::read_flags_u16_be(body, &mut pos)?;
        let v_max_workers = if kryo::is_field_present(fl, 9) {
            kryo::read_positive_varint_i32(body, &mut pos)?
        } else {
            0
        };
        Ok(
            DecodedEvent::BuildModes(
                BuildModesEvent {
                    max_workers: if kryo::is_field_present(fl, 9) { Some(v_max_workers) } else { None },
                    refresh_dependencies: kryo::is_field_present(fl, 0),
                    parallel_project_execution: kryo::is_field_present(fl, 1),
                    rerun_tasks: kryo::is_field_present(fl, 2),
                    continuous: kryo::is_field_present(fl, 3),
                    continue_on_failure: kryo::is_field_present(fl, 4),
                    configure_on_demand: kryo::is_field_present(fl, 5),
                    daemon: kryo::is_field_present(fl, 6),
                    offline: kryo::is_field_present(fl, 7),
                    dry_run: kryo::is_field_present(fl, 8),
                },
            ),
        )
    }
}

} // verus!
