//! Where the run's log file lives.

use vstd::prelude::*;

verus! {

/// The log file's path under the user data folder, stamped with the
/// moment the run began (the caller formats the timestamp).
pub fn get_log_path(data_dir: &str, timestamp: &str) -> (r: String)
    ensures
        r@ == data_dir@ + "/vscch/vscch_"@ + timestamp@ + ".log"@,
{
    let mut s = String::from_str(data_dir);
    s.append("/vscch/vscch_");
    s.append(timestamp);
    s.append(".log");
    s
}

} // verus!
