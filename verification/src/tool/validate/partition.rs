use vstd::prelude::*;

use crate::text::str_eq;
use crate::tool::constants::APP0_SIZE;
use crate::tool::partitions::{partition_layout, partitions};

verus! {

/// A firmware size set against the size of the partition it must fit in.
#[derive(Debug, Clone, Copy, PartialEq, Eq, Structural)]
pub struct PartitionFit {
    pub firmware_size: usize,
    pub partition_size: u32,
}

/// Size of the partition named `name` in the table, if there is one.
pub fn partition_size(name: &str) -> (size: Option<u32>)
    ensures
        size matches Some(s) ==> exists|i: int|
            0 <= i < partition_layout().len() && #[trigger] partition_layout()[i].0 == name@
                && partition_layout()[i].2 == s,
        size is None ==> forall|i: int|
            0 <= i < partition_layout().len() ==> #[trigger] partition_layout()[i].0 != name@,
{
    let table = partitions();
    let mut i: usize = 0;
    while i < table.len()
        invariant
            table@.len() == partition_layout().len(),
            forall|k: int|
                0 <= k < table@.len() ==> (#[trigger] table@[k]).name@ == partition_layout()[k].0
                    && table@[k].size == partition_layout()[k].2,
            0 <= i <= table@.len(),
            forall|k: int| 0 <= k < i ==> #[trigger] partition_layout()[k].0 != name@,
        decreases table@.len() - i,
    {
        if str_eq(table[i].name, name) {
            return Some(table[i].size);
        }
        i = i + 1;
    }
    None
}

/// Validate that a firmware binary fits in the app0 partition. Either way
/// the result carries both sizes, for the caller to report.
pub fn validate_fits_app0(firmware_size: usize) -> (r: Result<PartitionFit, PartitionFit>)
    ensures
        firmware_size <= APP0_SIZE ==> r == Ok::<PartitionFit, PartitionFit>(
            PartitionFit { firmware_size, partition_size: APP0_SIZE },
        ),
        firmware_size > APP0_SIZE ==> r == Err::<PartitionFit, PartitionFit>(
            PartitionFit { firmware_size, partition_size: APP0_SIZE },
        ),
{
    let size = partition_size("app0");
    proof {
        reveal_strlit("app0");
        reveal_strlit("nvs");
        reveal_strlit("otadata");
        reveal_strlit("app1");
        reveal_strlit("spiffs");
        reveal_strlit("coredump");
        assert(partition_layout()[2].0 == "app0"@);
        assert(partition_layout()[0].0 != "app0"@);
        assert(partition_layout()[1].0 != "app0"@);
        assert("app1"@[3] != "app0"@[3]);
        assert(partition_layout()[3].0 != "app0"@);
        assert(partition_layout()[4].0 != "app0"@);
        assert(partition_layout()[5].0 != "app0"@);
    }
    let app0_size = match size {
        Some(s) => s,
        None => {
            proof {
                assert(partition_layout()[2].0 == "app0"@);
            }
            0
        },
    };
    let fit = PartitionFit { firmware_size, partition_size: app0_size };
    if firmware_size > app0_size as usize {
        return Err(fit);
    }
    Ok(fit)
}

} // verus!
