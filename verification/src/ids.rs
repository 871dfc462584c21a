use vstd::prelude::*;

verus! {

/// Bytes of the program's id, `5cqC671u7TqttSQC3MBMTj41KkWC8pTebcg1kbXwP1hZ`.
pub open spec fn spec_program_id() -> Seq<u8> {
    seq![
        68u8, 156u8, 144u8, 226u8, 114u8, 103u8, 53u8, 185u8, 219u8, 50u8, 32u8, 34u8, 14u8, 49u8,
        203u8, 191u8, 87u8, 29u8, 113u8, 24u8, 181u8, 228u8, 191u8, 39u8, 56u8, 155u8, 111u8, 108u8,
        67u8, 229u8, 44u8, 192u8,
    ]
}

/// Bytes of the administrator's id, `Bn6jUQPC48meSkE5nZ8G8yWyxsuoiGwQwyX127nVmWWZ`.
pub open spec fn spec_admin_id() -> Seq<u8> {
    seq![
        160u8, 34u8, 124u8, 184u8, 56u8, 219u8, 227u8, 142u8, 46u8, 176u8, 10u8, 70u8, 99u8, 12u8,
        6u8, 131u8, 182u8, 57u8, 213u8, 57u8, 246u8, 71u8, 246u8, 169u8, 93u8, 42u8, 225u8, 207u8,
        193u8, 214u8, 121u8, 134u8,
    ]
}

/// The program's id.
pub fn program_id() -> (id: [u8; 32])
    ensures
        id@ == spec_program_id(),
{
    let id: [u8; 32] = [
        68, 156, 144, 226, 114, 103, 53, 185, 219, 50, 32, 34, 14, 49, 203, 191, 87, 29, 113, 24,
        181, 228, 191, 39, 56, 155, 111, 108, 67, 229, 44, 192,
    ];
    assert(id@ =~= spec_program_id());
    id
}

/// The administrator's id.
pub fn admin_id() -> (id: [u8; 32])
    ensures
        id@ == spec_admin_id(),
{
    let id: [u8; 32] = [
        160, 34, 124, 184, 56, 219, 227, 142, 46, 176, 10, 70, 99, 12, 6, 131, 182, 57, 213, 57,
        246, 71, 246, 169, 93, 42, 225, 207, 193, 214, 121, 134,
    ];
    assert(id@ =~= spec_admin_id());
    id
}

} // verus!
