//! The summary of the currently selected input source that the monitor keeps
//! and logs: localized name and identifier combined into one line, with
//! "Unknown" standing in where the system gave nothing usable.

use vstd::prelude::*;

use crate::text::opt_view;

verus! {

/// The combined description: the identifier alone, the localized name alone,
/// "name (identifier)" when both could be read, and "Unknown" when the
/// outcome would be empty.
pub open spec fn spec_layout_info(id: Option<Seq<char>>, name: Option<Seq<char>>) -> Seq<char> {
    let base = match id {
        Some(s) => s,
        None => Seq::<char>::empty(),
    };
    let combined = match name {
        Some(nm) => if base.len() > 0 {
            nm + " ("@ + base + ")"@
        } else {
            nm
        },
        None => base,
    };
    if combined.len() == 0 {
        "Unknown"@
    } else {
        combined
    }
}

/// Combines an input source's identifier and localized name, as far as they
/// could be read, into the one-line summary that the monitor records.
pub fn format_layout_info(id: Option<&str>, name: Option<&str>) -> (r: String)
    ensures
        r@ == spec_layout_info(opt_view(id), opt_view(name)),
{
    let mut base = String::new();
    if id.is_some() {
        base.append(id.unwrap());
    }
    let combined: String = if name.is_some() {
        let nm = name.unwrap();
        if !base.as_str().is_empty() {
            let mut out = nm.to_owned();
            out.append(" (");
            out.append(base.as_str());
            out.append(")");
            proof {
                assert(out@ =~= nm@ + " ("@ + base@ + ")"@);
            }
            out
        } else {
            nm.to_owned()
        }
    } else {
        base
    };
    if combined.as_str().is_empty() {
        "Unknown".to_owned()
    } else {
        combined
    }
}

} // verus!
