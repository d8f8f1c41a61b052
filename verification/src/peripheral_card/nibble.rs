//! The on-disk form of a sector: sync bytes, an address field and a data
//! field in 6-and-2 encoding.
use vstd::prelude::*;
use crate::bits::lemma_pack_pairs;
use crate::bits::lemma_top_six;
use crate::peripheral_card::disk::Drive;

verus! {

/// From three pairs of low bits, packed as `a | b << 2 | c << 4`, to the
/// byte that carries them in the auxiliary part of a data field.
pub const TAB1: [u8; 64] = [
    0x00, 0x08, 0x04, 0x0C, 0x20, 0x28, 0x24, 0x2C, 0x10, 0x18, 0x14, 0x1C,
    0x30, 0x38, 0x34, 0x3C, 0x80, 0x88, 0x84, 0x8C, 0xA0, 0xA8, 0xA4, 0xAC,
    0x90, 0x98, 0x94, 0x9C, 0xB0, 0xB8, 0xB4, 0xBC, 0x40, 0x48, 0x44, 0x4C,
    0x60, 0x68, 0x64, 0x6C, 0x50, 0x58, 0x54, 0x5C, 0x70, 0x78, 0x74, 0x7C,
    0xC0, 0xC8, 0xC4, 0xCC, 0xE0, 0xE8, 0xE4, 0xEC, 0xD0, 0xD8, 0xD4, 0xDC,
    0xF0, 0xF8, 0xF4, 0xFC,
];

/// From a six-bit value to the disk byte that stands for it.
pub const TAB2: [u8; 64] = [
    0x96, 0x97, 0x9A, 0x9B, 0x9D, 0x9E, 0x9F, 0xA6, 0xA7, 0xAB, 0xAC, 0xAD,
    0xAE, 0xAF, 0xB2, 0xB3, 0xB4, 0xB5, 0xB6, 0xB7, 0xB9, 0xBA, 0xBB, 0xBC,
    0xBD, 0xBE, 0xBF, 0xCB, 0xCD, 0xCE, 0xCF, 0xD3, 0xD6, 0xD7, 0xD9, 0xDA,
    0xDB, 0xDC, 0xDD, 0xDE, 0xDF, 0xE5, 0xE6, 0xE7, 0xE9, 0xEA, 0xEB, 0xEC,
    0xED, 0xEE, 0xEF, 0xF2, 0xF3, 0xF4, 0xF5, 0xF6, 0xF7, 0xF9, 0xFA, 0xFB,
    0xFC, 0xFD, 0xFE, 0xFF,
];

/// The physical sector that holds each logical sector of a track.
pub const PHYS: [u8; 16] = [
    0x00, 0x0D, 0x0B, 0x09, 0x07, 0x05, 0x03, 0x01, 0x0E, 0x0C, 0x0A, 0x08,
    0x06, 0x04, 0x02, 0x0F,
];

/// Bytes of data in a sector.
pub const SECTOR_DATA: usize = 256;

/// Bytes of the auxiliary part of a data field: the low bit pairs of the
/// data, three to a byte.
pub const AUX_SIZE: usize = 0x56;

/// Bytes of the body of a data field: the auxiliary part, the data and a
/// checksum.
pub const BODY_SIZE: usize = 343;

/// Bytes that a sector takes in the nibble buffer.
pub const NIBBLE_SECTOR_SIZE: usize = 0x200;

/// Bytes of a nibblized sector that hold anything; the rest is zero.
pub const NIBBLE_SECTOR_USED: usize = 387;

/// The volume number written into every address field.
pub const VOLUME: u8 = 0xFE;

/// The odd bits of a byte, as a disk byte.
pub open spec fn odd_nibble(b: u8) -> u8 {
    (b >> 1) | 0xAA
}

/// The even bits of a byte, as a disk byte.
pub open spec fn even_nibble(b: u8) -> u8 {
    b | 0xAA
}

/// `n` bytes of `$FF`, on which the controller finds its footing.
pub open spec fn sync(n: nat) -> Seq<u8> {
    Seq::new(n, |i: int| 0xFFu8)
}

/// The address field of a sector: prologue, then volume, track, physical
/// sector and their checksum, each as its odd and its even bits, then the
/// epilogue.
pub open spec fn address_field(track: u8, phys: u8) -> Seq<u8> {
    seq![
        0xD5u8,
        0xAAu8,
        0x96u8,
        odd_nibble(VOLUME),
        even_nibble(VOLUME),
        odd_nibble(track),
        even_nibble(track),
        odd_nibble(phys),
        even_nibble(phys),
        odd_nibble(VOLUME ^ track ^ phys),
        even_nibble(VOLUME ^ track ^ phys),
        0xDEu8,
        0xAAu8,
        0xEBu8,
    ]
}

/// Byte `j` of a sector's data; zero past its end.
pub open spec fn source_byte(data: Seq<u8>, j: int) -> u8 {
    if 0 <= j < data.len() {
        data[j]
    } else {
        0
    }
}

/// Byte `k` of the buffer that is encoded: first the auxiliary bytes, each
/// made of the low bit pairs of three data bytes a third of the buffer
/// apart, then the data bytes themselves, then zero.
pub open spec fn scratch_byte(data: Seq<u8>, k: int) -> u8 {
    if k < AUX_SIZE {
        TAB1[((source_byte(data, k) & 3) | (source_byte(data, k + AUX_SIZE) & 3) << 2 | (
        source_byte(data, k + 2 * AUX_SIZE) & 3) << 4) as int]
    } else {
        source_byte(data, k - AUX_SIZE)
    }
}

/// Byte `k` of that buffer, exclusive-ored with the byte before it.
pub open spec fn chained_byte(data: Seq<u8>, k: int) -> u8 {
    if k == 0 {
        scratch_byte(data, 0)
    } else {
        scratch_byte(data, k - 1) ^ scratch_byte(data, k)
    }
}

/// The body of a data field: the disk bytes for the top six bits of each
/// chained byte. The last one carries the checksum.
pub open spec fn data_body(data: Seq<u8>) -> Seq<u8> {
    Seq::new(BODY_SIZE as nat, |k: int| TAB2[(chained_byte(data, k) >> 2) as int])
}

/// The data field of a sector: prologue, body, epilogue.
pub open spec fn data_field(data: Seq<u8>) -> Seq<u8> {
    seq![0xD5u8, 0xAAu8, 0xADu8] + data_body(data) + seq![0xDEu8, 0xAAu8, 0xEBu8]
}

/// A sector as the drive streams it: sync, address field, sync, data
/// field, and zeros up to the size of its place in the buffer.
pub open spec fn nibblized_sector(track: u8, phys: u8, data: Seq<u8>) -> Seq<u8> {
    sync(16) + address_field(track, phys) + sync(8) + data_field(data) + Seq::new(
        (NIBBLE_SECTOR_SIZE - NIBBLE_SECTOR_USED) as nat,
        |i: int| 0u8,
    )
}

/// Appends `n` sync bytes to `sector`.
fn push_sync(sector: &mut Vec<u8>, n: usize)
    ensures
        final(sector)@ == old(sector)@ + sync(n as nat),
{
    let ghost before = sector@;
    for i in 0..n
        invariant
            sector@.len() == before.len() + i,
            forall|j: int| 0 <= j < before.len() ==> sector@[j] == before[j],
            forall|j: int| before.len() <= j < before.len() + i ==> sector@[j] == 0xFFu8,
    {
        sector.push(0xFF);
    }
    assert(sector@ =~= before + sync(n as nat));
}

/// Appends to `sector` the 6-and-2 encoding of `data`.
fn push_data_body(sector: &mut Vec<u8>, data: &[u8; SECTOR_DATA])
    ensures
        final(sector)@ == old(sector)@ + data_body(data@),
{
    let ghost before = sector@;
    let mut buf: [u8; 344] = [0u8; 344];
    for j in 0..SECTOR_DATA
        invariant
            forall|k: int| 0 <= k < AUX_SIZE ==> buf@[k] == 0,
            forall|k: int| AUX_SIZE <= k < AUX_SIZE + j ==> buf@[k] == data@[k - AUX_SIZE],
            forall|k: int| AUX_SIZE + j <= k < 344 ==> buf@[k] == 0,
    {
        buf[AUX_SIZE + j] = data[j];
    }
    for off in 0..AUX_SIZE
        invariant
            forall|k: int| 0 <= k < off ==> buf@[k] == scratch_byte(data@, k),
            forall|k: int| AUX_SIZE <= k < 344 ==> buf@[k] == source_byte(data@, k - AUX_SIZE),
    {
        let a: u8 = buf[off + AUX_SIZE];
        let b: u8 = buf[off + 2 * AUX_SIZE];
        let c: u8 = buf[off + 3 * AUX_SIZE];
        proof {
            lemma_pack_pairs(a, b, c);
        }
        let i: u8 = (a & 3) | (b & 3) << 2 | (c & 3) << 4;
        buf[off] = TAB1[i as usize];
    }
    assert(forall|k: int| 0 <= k < 344 ==> buf@[k] == scratch_byte(data@, k));
    proof {
        lemma_top_six(buf@[0]);
    }
    sector.push(TAB2[(buf[0] >> 2) as usize]);
    for off in 1..BODY_SIZE
        invariant
            forall|k: int| 0 <= k < 344 ==> buf@[k] == scratch_byte(data@, k),
            sector@.len() == before.len() + off,
            forall|j: int| 0 <= j < before.len() ==> sector@[j] == before[j],
            forall|k: int|
                0 <= k < off ==> sector@[before.len() + k] == TAB2[(chained_byte(data@, k)
                    >> 2) as int],
    {
        let v: u8 = buf[off - 1] ^ buf[off];
        proof {
            lemma_top_six(v);
        }
        sector.push(TAB2[(v >> 2) as usize]);
    }
    assert(sector@ =~= before + data_body(data@));
}

/// The nibblized form of the sector of `track` that goes to physical
/// sector `phys` and holds `data`.
pub fn nibblize_sector(track: u8, phys: u8, data: &[u8; SECTOR_DATA]) -> (sector: Vec<u8>)
    ensures
        sector@ == nibblized_sector(track, phys, data@),
{
    let mut sector: Vec<u8> = Vec::new();
    push_sync(&mut sector, 16);
    // Address field.
    sector.push(0xD5);
    sector.push(0xAA);
    sector.push(0x96);
    sector.push(Drive::nib_odd(VOLUME));
    sector.push(Drive::nib_even(VOLUME));
    sector.push(Drive::nib_odd(track));
    sector.push(Drive::nib_even(track));
    sector.push(Drive::nib_odd(phys));
    sector.push(Drive::nib_even(phys));
    let checksum: u8 = VOLUME ^ track ^ phys;
    sector.push(Drive::nib_odd(checksum));
    sector.push(Drive::nib_even(checksum));
    sector.push(0xDE);
    sector.push(0xAA);
    sector.push(0xEB);
    assert(sector@ =~= sync(16) + address_field(track, phys));
    push_sync(&mut sector, 8);
    // Data field.
    sector.push(0xD5);
    sector.push(0xAA);
    sector.push(0xAD);
    push_data_body(&mut sector, data);
    sector.push(0xDE);
    sector.push(0xAA);
    sector.push(0xEB);
    assert(sector@ =~= sync(16) + address_field(track, phys) + sync(8) + data_field(data@));
    let ghost used = sector@;
    for i in NIBBLE_SECTOR_USED..NIBBLE_SECTOR_SIZE
        invariant
            used.len() == NIBBLE_SECTOR_USED,
            sector@.len() == i,
            forall|j: int| 0 <= j < NIBBLE_SECTOR_USED ==> sector@[j] == used[j],
            forall|j: int| NIBBLE_SECTOR_USED <= j < i ==> sector@[j] == 0,
    {
        sector.push(0);
    }
    assert(sector@ =~= nibblized_sector(track, phys, data@));
    sector
}

/// Whether `b` is one of the sixty-four disk bytes.
pub open spec fn is_disk_byte(b: u8) -> bool {
    exists|v: int| 0 <= v < 64 && #[trigger] TAB2[v] == b
}

/// Whether a field that starts `$D5 $AA` and goes on with `third` starts
/// at byte `i` of a sector.
pub open spec fn field_starts(sector: Seq<u8>, i: int, third: u8) -> bool {
    sector[i] == 0xD5 && sector[i + 1] == 0xAA && sector[i + 2] == third
}

/// Where the address field starts in a nibblized sector.
pub const ADDRESS_FIELD_AT: usize = 16;

/// Where the data field starts in a nibblized sector.
pub const DATA_FIELD_AT: usize = 38;

/// A pair of bits with its two bits swapped.
pub open spec fn swap_pair(p: u8) -> u8 {
    ((p & 1) << 1) | ((p >> 1) & 1)
}

/// The auxiliary byte for three pairs of bits packed as
/// `a | b << 2 | c << 4`: each pair with its bits swapped, in bits 2 to 7.
/// This is what `TAB1` tabulates.
pub open spec fn pairs_byte(i: u8) -> u8 {
    swap_pair(i & 3) << 2 | swap_pair((i >> 2) & 3) << 4 | swap_pair((i >> 4) & 3) << 6
}

/// The six-bit value that the disk byte `b` stands for.
pub open spec fn six_bits(b: u8) -> u8 {
    choose|v: u8| v < 64 && TAB2[v as int] == b
}

/// The top six bits of byte `k` of the buffer that was encoded, from the
/// body of a data field: the chain of exclusive-ors is undone from the
/// first byte on.
pub open spec fn unchained(body: Seq<u8>, k: int) -> u8
    decreases k,
{
    if k <= 0 {
        six_bits(body[0])
    } else {
        six_bits(body[k]) ^ unchained(body, k - 1)
    }
}

/// Data byte `j` from the body of a data field: its top six bits from its
/// own place behind the auxiliary part, its low two from the auxiliary
/// byte that holds them, swapped back.
pub open spec fn decoded_byte(body: Seq<u8>, j: int) -> u8 {
    let high = unchained(body, AUX_SIZE + j);
    let aux = unchained(body, j % (AUX_SIZE as int));
    let pair = if j < AUX_SIZE {
        aux & 3
    } else if j < 2 * AUX_SIZE {
        (aux >> 2) & 3
    } else {
        (aux >> 4) & 3
    };
    high << 2 | swap_pair(pair)
}

/// The 256 bytes of data that the body of a data field holds.
pub open spec fn decoded(body: Seq<u8>) -> Seq<u8> {
    Seq::new(SECTOR_DATA as nat, |j: int| decoded_byte(body, j))
}

/// What `pairs_byte` gives for each of its sixty-four arguments.
proof fn lemma_pairs_byte_values()
    by (bit_vector)
    ensures
        pairs_byte(0) == 0x00,
        pairs_byte(1) == 0x08,
        pairs_byte(2) == 0x04,
        pairs_byte(3) == 0x0C,
        pairs_byte(4) == 0x20,
        pairs_byte(5) == 0x28,
        pairs_byte(6) == 0x24,
        pairs_byte(7) == 0x2C,
        pairs_byte(8) == 0x10,
        pairs_byte(9) == 0x18,
        pairs_byte(10) == 0x14,
        pairs_byte(11) == 0x1C,
        pairs_byte(12) == 0x30,
        pairs_byte(13) == 0x38,
        pairs_byte(14) == 0x34,
        pairs_byte(15) == 0x3C,
        pairs_byte(16) == 0x80,
        pairs_byte(17) == 0x88,
        pairs_byte(18) == 0x84,
        pairs_byte(19) == 0x8C,
        pairs_byte(20) == 0xA0,
        pairs_byte(21) == 0xA8,
        pairs_byte(22) == 0xA4,
        pairs_byte(23) == 0xAC,
        pairs_byte(24) == 0x90,
        pairs_byte(25) == 0x98,
        pairs_byte(26) == 0x94,
        pairs_byte(27) == 0x9C,
        pairs_byte(28) == 0xB0,
        pairs_byte(29) == 0xB8,
        pairs_byte(30) == 0xB4,
        pairs_byte(31) == 0xBC,
        pairs_byte(32) == 0x40,
        pairs_byte(33) == 0x48,
        pairs_byte(34) == 0x44,
        pairs_byte(35) == 0x4C,
        pairs_byte(36) == 0x60,
        pairs_byte(37) == 0x68,
        pairs_byte(38) == 0x64,
        pairs_byte(39) == 0x6C,
        pairs_byte(40) == 0x50,
        pairs_byte(41) == 0x58,
        pairs_byte(42) == 0x54,
        pairs_byte(43) == 0x5C,
        pairs_byte(44) == 0x70,
        pairs_byte(45) == 0x78,
        pairs_byte(46) == 0x74,
        pairs_byte(47) == 0x7C,
        pairs_byte(48) == 0xC0,
        pairs_byte(49) == 0xC8,
        pairs_byte(50) == 0xC4,
        pairs_byte(51) == 0xCC,
        pairs_byte(52) == 0xE0,
        pairs_byte(53) == 0xE8,
        pairs_byte(54) == 0xE4,
        pairs_byte(55) == 0xEC,
        pairs_byte(56) == 0xD0,
        pairs_byte(57) == 0xD8,
        pairs_byte(58) == 0xD4,
        pairs_byte(59) == 0xDC,
        pairs_byte(60) == 0xF0,
        pairs_byte(61) == 0xF8,
        pairs_byte(62) == 0xF4,
        pairs_byte(63) == 0xFC,
{
}

/// `TAB1` holds `pairs_byte`.
pub proof fn lemma_tab1_is_pairs_byte()
    ensures
        forall|i: int| 0 <= i < 64 ==> #[trigger] TAB1[i] == pairs_byte(i as u8),
{
    lemma_pairs_byte_values();
}

/// The pairs of bits come back out of the byte that carries them.
proof fn lemma_pairs_come_back(a: u8, b: u8, c: u8)
    by (bit_vector)
    ensures
        swap_pair((pairs_byte((a & 3) | (b & 3) << 2 | (c & 3) << 4) >> 2) & 3) == a & 3,
        swap_pair(((pairs_byte((a & 3) | (b & 3) << 2 | (c & 3) << 4) >> 2) >> 2) & 3) == b & 3,
        swap_pair(((pairs_byte((a & 3) | (b & 3) << 2 | (c & 3) << 4) >> 2) >> 4) & 3) == c & 3,
{
}

/// A byte is its top six bits and its low two.
proof fn lemma_join(v: u8)
    by (bit_vector)
    ensures
        (v >> 2) << 2 | (v & 3) == v,
{
}

/// Undoing one link of the chain gives the top six bits of a byte.
proof fn lemma_unchain(a: u8, b: u8)
    by (bit_vector)
    ensures
        ((a ^ b) >> 2) ^ (a >> 2) == b >> 2,
{
}

/// `TAB2` rises strictly.
pub proof fn lemma_tab2_rises(i: int, j: int)
    requires
        0 <= i < j < 64,
    ensures
        TAB2[i] < TAB2[j],
    decreases j - i,
{
    assert(forall|k: int| 0 <= k < 63 ==> #[trigger] TAB2[k] < TAB2[k + 1]);
    if i + 1 < j {
        lemma_tab2_rises(i, j - 1);
    }
}

/// A disk byte stands for one six-bit value only.
pub proof fn lemma_six_bits_of_tab2(v: u8)
    requires
        v < 64,
    ensures
        six_bits(TAB2[v as int]) == v,
{
    let w = six_bits(TAB2[v as int]);
    assert(w < 64 && TAB2[w as int] == TAB2[v as int]);
    if w < v {
        lemma_tab2_rises(w as int, v as int);
    } else if v < w {
        lemma_tab2_rises(v as int, w as int);
    }
}

/// Undoing the chain gives the top six bits of each byte that was encoded.
pub proof fn lemma_unchained_body(data: Seq<u8>, k: int)
    requires
        0 <= k < BODY_SIZE,
    ensures
        unchained(data_body(data), k) == scratch_byte(data, k) >> 2,
    decreases k,
{
    let body = data_body(data);
    lemma_top_six(chained_byte(data, k));
    lemma_six_bits_of_tab2(chained_byte(data, k) >> 2);
    assert(six_bits(body[k]) == chained_byte(data, k) >> 2);
    if k > 0 {
        lemma_unchained_body(data, k - 1);
        lemma_unchain(scratch_byte(data, k - 1), scratch_byte(data, k));
    }
}

/// The low bit pairs of three data bytes come back out of the auxiliary
/// byte that holds them.
proof fn lemma_aux_pairs(data: Seq<u8>, i: int)
    requires
        0 <= i < AUX_SIZE,
    ensures
        swap_pair(unchained(data_body(data), i) & 3) == source_byte(data, i) & 3,
        swap_pair((unchained(data_body(data), i) >> 2) & 3) == source_byte(data, i + AUX_SIZE)
            & 3,
        swap_pair((unchained(data_body(data), i) >> 4) & 3) == source_byte(
            data,
            i + 2 * AUX_SIZE,
        ) & 3,
{
    let a = source_byte(data, i);
    let b = source_byte(data, i + AUX_SIZE);
    let c = source_byte(data, i + 2 * AUX_SIZE);
    let index = (a & 3) | (b & 3) << 2 | (c & 3) << 4;
    lemma_unchained_body(data, i);
    lemma_pack_pairs(a, b, c);
    assert(scratch_byte(data, i) == TAB1[index as int]);
    assert(TAB1[index as int] == pairs_byte(index)) by {
        lemma_tab1_is_pairs_byte();
    }
    lemma_pairs_come_back(a, b, c);
}

/// Each data byte comes back out of the body of the data field.
proof fn lemma_decoded_byte(data: Seq<u8>, j: int)
    requires
        data.len() == SECTOR_DATA,
        0 <= j < SECTOR_DATA,
    ensures
        decoded_byte(data_body(data), j) == data[j],
{
    let i = j % (AUX_SIZE as int);
    lemma_unchained_body(data, AUX_SIZE + j);
    assert(unchained(data_body(data), AUX_SIZE + j) == data[j] >> 2);
    lemma_aux_pairs(data, i);
    lemma_join(data[j]);
    if j < AUX_SIZE {
        assert(i == j);
    } else if j < 2 * AUX_SIZE {
        assert(i + AUX_SIZE == j);
    } else {
        assert(i + 2 * AUX_SIZE == j);
    }
}

/// Neither the odd nor the even bits of a byte make the byte that starts a
/// field.
proof fn lemma_odd_even_not_d5(b: u8)
    by (bit_vector)
    ensures
        (b >> 1) | 0xAA != 0xD5,
        b | 0xAA != 0xD5,
{
}

/// What the encoding makes of zeros.
proof fn lemma_zero_bits()
    by (bit_vector)
    ensures
        0u8 ^ 0u8 == 0,
        0u8 >> 2 == 0,
        (0u8 & 3) | (0u8 & 3) << 2 | (0u8 & 3) << 4 == 0,
{
}

/// Every byte of the body of a data field is a disk byte, and none is
/// `$D5`.
pub proof fn lemma_body_bytes(data: Seq<u8>, k: int)
    requires
        0 <= k < BODY_SIZE,
    ensures
        is_disk_byte(data_body(data)[k]),
        data_body(data)[k] != 0xD5,
        data_body(data)[k] != 0,
{
    lemma_top_six(chained_byte(data, k));
    let v = (chained_byte(data, k) >> 2) as int;
    assert(TAB2[v] == data_body(data)[k]);
    assert(forall|i: int| 0 <= i < 64 ==> #[trigger] TAB2[i] != 0xD5 && TAB2[i] != 0);
}

/// What stands where in a nibblized sector.
pub proof fn lemma_sector_layout(track: u8, phys: u8, data: Seq<u8>)
    ensures
        nibblized_sector(track, phys, data).len() == NIBBLE_SECTOR_SIZE,
        forall|i: int| 0 <= i < 16 ==> #[trigger] nibblized_sector(track, phys, data)[i] == 0xFF,
        forall|i: int|
            0 <= i < 14 ==> #[trigger] nibblized_sector(track, phys, data)[16 + i]
                == address_field(track, phys)[i],
        forall|i: int|
            30 <= i < 38 ==> #[trigger] nibblized_sector(track, phys, data)[i] == 0xFF,
        nibblized_sector(track, phys, data)[38] == 0xD5,
        nibblized_sector(track, phys, data)[39] == 0xAA,
        nibblized_sector(track, phys, data)[40] == 0xAD,
        forall|k: int|
            0 <= k < BODY_SIZE ==> #[trigger] nibblized_sector(track, phys, data)[41 + k]
                == data_body(data)[k],
        nibblized_sector(track, phys, data)[384] == 0xDE,
        nibblized_sector(track, phys, data)[385] == 0xAA,
        nibblized_sector(track, phys, data)[386] == 0xEB,
        forall|i: int|
            NIBBLE_SECTOR_USED <= i < NIBBLE_SECTOR_SIZE ==> #[trigger] nibblized_sector(
                track,
                phys,
                data,
            )[i] == 0,
{
}

/// Each nibblized sector holds one address field and one data field, and
/// nothing else that looks like the start of either: `$D5 $AA $96` stands
/// at byte 16 only, before the odd and even bits of volume, track, sector
/// and checksum, and `$D5 $AA $AD` at byte 38 only, before 343 disk bytes.
pub proof fn law_one_field_of_each_kind(track: u8, phys: u8, data: Seq<u8>)
    ensures
        forall|i: int|
            0 <= i <= NIBBLE_SECTOR_SIZE - 3 ==> (#[trigger] field_starts(
                nibblized_sector(track, phys, data),
                i,
                0x96,
            ) <==> i == ADDRESS_FIELD_AT),
        forall|i: int|
            0 <= i <= NIBBLE_SECTOR_SIZE - 3 ==> (#[trigger] field_starts(
                nibblized_sector(track, phys, data),
                i,
                0xAD,
            ) <==> i == DATA_FIELD_AT),
        nibblized_sector(track, phys, data).subrange(
            ADDRESS_FIELD_AT + 3,
            ADDRESS_FIELD_AT + 11,
        ) == seq![
            odd_nibble(VOLUME),
            even_nibble(VOLUME),
            odd_nibble(track),
            even_nibble(track),
            odd_nibble(phys),
            even_nibble(phys),
            odd_nibble(VOLUME ^ track ^ phys),
            even_nibble(VOLUME ^ track ^ phys),
        ],
        forall|k: int|
            0 <= k < BODY_SIZE ==> is_disk_byte(
                #[trigger] nibblized_sector(track, phys, data)[DATA_FIELD_AT + 3 + k],
            ),
{
    let s = nibblized_sector(track, phys, data);
    lemma_sector_layout(track, phys, data);
    lemma_odd_even_not_d5(VOLUME);
    lemma_odd_even_not_d5(track);
    lemma_odd_even_not_d5(phys);
    lemma_odd_even_not_d5(VOLUME ^ track ^ phys);
    assert forall|i: int| 0 <= i < NIBBLE_SECTOR_SIZE && i != 16 && i != 38 implies s[i]
        != 0xD5 by {
        if i < 16 {
        } else if i < 30 {
            assert(s[16 + (i - 16)] == address_field(track, phys)[i - 16]);
        } else if i < 38 {
        } else if i < 41 {
        } else if i < 384 {
            assert(s[41 + (i - 41)] == data_body(data)[i - 41]);
            lemma_body_bytes(data, i - 41);
        } else if i < 387 {
        } else {
        }
    }
    assert(s[16 + 0int] == 0xD5 && s[16 + 1int] == 0xAA && s[16 + 2int] == 0x96);
    assert forall|i: int| 0 <= i <= NIBBLE_SECTOR_SIZE - 3 implies (#[trigger] field_starts(
        s,
        i,
        0x96,
    ) <==> i == ADDRESS_FIELD_AT) by {}
    assert forall|i: int| 0 <= i <= NIBBLE_SECTOR_SIZE - 3 implies (#[trigger] field_starts(
        s,
        i,
        0xAD,
    ) <==> i == DATA_FIELD_AT) by {}
    assert forall|k: int| 0 <= k < BODY_SIZE implies is_disk_byte(
        #[trigger] s[DATA_FIELD_AT + 3 + k],
    ) by {
        assert(s[41 + k] == data_body(data)[k]);
        lemma_body_bytes(data, k);
    }
    assert forall|i: int| 0 <= i < 8 implies s.subrange(19, 27)[i] == address_field(
        track,
        phys,
    )[3 + i] by {
        assert(s[16 + (3 + i)] == address_field(track, phys)[3 + i]);
    }
    assert(s.subrange(19, 27) =~= seq![
        odd_nibble(VOLUME),
        even_nibble(VOLUME),
        odd_nibble(track),
        even_nibble(track),
        odd_nibble(phys),
        even_nibble(phys),
        odd_nibble(VOLUME ^ track ^ phys),
        even_nibble(VOLUME ^ track ^ phys),
    ]);
}

/// Data that ends early is padded with `$96`. Where a sector's data is
/// zero from byte `n` on, every byte of the body behind the one for data
/// byte `n` is `$96`, the disk byte for zero, and so is the whole body
/// where `n` is 0.
pub proof fn law_zero_tail_encodes_as_96(data: Seq<u8>, n: int)
    requires
        data.len() == SECTOR_DATA,
        0 <= n <= SECTOR_DATA,
        forall|j: int| n <= j < SECTOR_DATA ==> data[j] == 0,
    ensures
        forall|k: int| AUX_SIZE + n < k < BODY_SIZE ==> #[trigger] data_body(data)[k] == 0x96,
        n == 0 ==> forall|k: int| 0 <= k < BODY_SIZE ==> #[trigger] data_body(data)[k] == 0x96,
{
    lemma_zero_bits();
    assert(TAB1[0] == 0 && TAB2[0] == 0x96);
    assert forall|k: int| AUX_SIZE + n < k < BODY_SIZE implies #[trigger] data_body(data)[k]
        == 0x96 by {
        assert(scratch_byte(data, k) == 0);
        assert(scratch_byte(data, k - 1) == 0);
    }
    if n == 0 {
        assert forall|k: int| 0 <= k < BODY_SIZE implies #[trigger] data_body(data)[k]
            == 0x96 by {
            assert(scratch_byte(data, k) == 0);
            if k > 0 {
                assert(scratch_byte(data, k - 1) == 0);
            }
        }
    }
}

/// The 6-and-2 encoding loses nothing: the data of a sector comes back
/// out of the body of its data field, byte for byte.
pub proof fn law_decoding_inverts_encoding(data: Seq<u8>)
    requires
        data.len() == SECTOR_DATA,
    ensures
        decoded(data_body(data)) == data,
{
    assert forall|j: int| 0 <= j < SECTOR_DATA implies decoded_byte(data_body(data), j)
        == data[j] by {
        lemma_decoded_byte(data, j);
    }
    assert(decoded(data_body(data)) =~= data);
}

} // verus!
