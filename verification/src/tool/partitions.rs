use vstd::prelude::*;

use super::constants::{APP0_OFFSET, APP0_SIZE, OTADATA_OFFSET, OTADATA_SIZE};

verus! {

/// One entry of the NanoD flash partition table.
pub struct PartitionInfo {
    pub name: &'static str,
    pub offset: u32,
    pub size: u32,
}

/// The partition table: names, offsets and sizes in flash order.
pub open spec fn partition_layout() -> Seq<(Seq<char>, u32, u32)> {
    seq![
        ("nvs"@, 0x9000u32, 0x5000u32),
        ("otadata"@, OTADATA_OFFSET, OTADATA_SIZE),
        ("app0"@, APP0_OFFSET, APP0_SIZE),
        ("app1"@, 0x150000u32, 0x140000u32),
        ("spiffs"@, 0x290000u32, 0x160000u32),
        ("coredump"@, 0x3F0000u32, 0x10000u32),
    ]
}

/// The NanoD flash partition table.
pub fn partitions() -> (table: Vec<PartitionInfo>)
    ensures
        table@.len() == partition_layout().len(),
        forall|i: int|
            0 <= i < table@.len() ==> (#[trigger] table@[i]).name@ == partition_layout()[i].0
                && table@[i].offset == partition_layout()[i].1 && table@[i].size
                == partition_layout()[i].2,
{
    let mut table = Vec::new();
    table.push(PartitionInfo { name: "nvs", offset: 0x9000, size: 0x5000 });
    table.push(PartitionInfo { name: "otadata", offset: OTADATA_OFFSET, size: OTADATA_SIZE });
    table.push(PartitionInfo { name: "app0", offset: APP0_OFFSET, size: APP0_SIZE });
    table.push(PartitionInfo { name: "app1", offset: 0x150000, size: 0x140000 });
    table.push(PartitionInfo { name: "spiffs", offset: 0x290000, size: 0x160000 });
    table.push(PartitionInfo { name: "coredump", offset: 0x3F0000, size: 0x10000 });
    table
}

} // verus!
