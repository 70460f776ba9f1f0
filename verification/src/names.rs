//! The fixed byte names the codec compares against: header names, the
//! multipart category, parameter keys, and charset identifiers.  Each name
//! has a spec constant and an executable builder proved to match it.

use vstd::prelude::*;

verus! {

/// `content-type` as a byte sequence.
pub open spec fn spec_name_content_type() -> Seq<u8> {
    seq![99u8, 111u8, 110u8, 116u8, 101u8, 110u8, 116u8, 45u8, 116u8, 121u8, 112u8, 101u8]
}

/// Builds the byte name `content-type`.
pub fn name_content_type() -> (r: Vec<u8>)
    ensures
        r@ == spec_name_content_type(),
{
    let mut v: Vec<u8> = Vec::new();
    v.push(99);
    v.push(111);
    v.push(110);
    v.push(116);
    v.push(101);
    v.push(110);
    v.push(116);
    v.push(45);
    v.push(116);
    v.push(121);
    v.push(112);
    v.push(101);
    assert(v@ =~= spec_name_content_type());
    v
}

/// `boundary` as a byte sequence.
pub open spec fn spec_name_boundary() -> Seq<u8> {
    seq![98u8, 111u8, 117u8, 110u8, 100u8, 97u8, 114u8, 121u8]
}

/// Builds the byte name `boundary`.
pub fn name_boundary() -> (r: Vec<u8>)
    ensures
        r@ == spec_name_boundary(),
{
    let mut v: Vec<u8> = Vec::new();
    v.push(98);
    v.push(111);
    v.push(117);
    v.push(110);
    v.push(100);
    v.push(97);
    v.push(114);
    v.push(121);
    assert(v@ =~= spec_name_boundary());
    v
}

/// `multipart` as a byte sequence.
pub open spec fn spec_name_multipart() -> Seq<u8> {
    seq![109u8, 117u8, 108u8, 116u8, 105u8, 112u8, 97u8, 114u8, 116u8]
}

/// Builds the byte name `multipart`.
pub fn name_multipart() -> (r: Vec<u8>)
    ensures
        r@ == spec_name_multipart(),
{
    let mut v: Vec<u8> = Vec::new();
    v.push(109);
    v.push(117);
    v.push(108);
    v.push(116);
    v.push(105);
    v.push(112);
    v.push(97);
    v.push(114);
    v.push(116);
    assert(v@ =~= spec_name_multipart());
    v
}

/// `content-disposition` as a byte sequence.
pub open spec fn spec_name_content_disposition() -> Seq<u8> {
    seq![99u8, 111u8, 110u8, 116u8, 101u8, 110u8, 116u8, 45u8, 100u8, 105u8, 115u8, 112u8, 111u8, 115u8, 105u8, 116u8, 105u8, 111u8, 110u8]
}

/// Builds the byte name `content-disposition`.
pub fn name_content_disposition() -> (r: Vec<u8>)
    ensures
        r@ == spec_name_content_disposition(),
{
    let mut v: Vec<u8> = Vec::new();
    v.push(99);
    v.push(111);
    v.push(110);
    v.push(116);
    v.push(101);
    v.push(110);
    v.push(116);
    v.push(45);
    v.push(100);
    v.push(105);
    v.push(115);
    v.push(112);
    v.push(111);
    v.push(115);
    v.push(105);
    v.push(116);
    v.push(105);
    v.push(111);
    v.push(110);
    assert(v@ =~= spec_name_content_disposition());
    v
}

/// `attachment` as a byte sequence.
pub open spec fn spec_name_attachment() -> Seq<u8> {
    seq![97u8, 116u8, 116u8, 97u8, 99u8, 104u8, 109u8, 101u8, 110u8, 116u8]
}

/// Builds the byte name `attachment`.
pub fn name_attachment() -> (r: Vec<u8>)
    ensures
        r@ == spec_name_attachment(),
{
    let mut v: Vec<u8> = Vec::new();
    v.push(97);
    v.push(116);
    v.push(116);
    v.push(97);
    v.push(99);
    v.push(104);
    v.push(109);
    v.push(101);
    v.push(110);
    v.push(116);
    assert(v@ =~= spec_name_attachment());
    v
}

/// `filename` as a byte sequence.
pub open spec fn spec_name_filename() -> Seq<u8> {
    seq![102u8, 105u8, 108u8, 101u8, 110u8, 97u8, 109u8, 101u8]
}

/// Builds the byte name `filename`.
pub fn name_filename() -> (r: Vec<u8>)
    ensures
        r@ == spec_name_filename(),
{
    let mut v: Vec<u8> = Vec::new();
    v.push(102);
    v.push(105);
    v.push(108);
    v.push(101);
    v.push(110);
    v.push(97);
    v.push(109);
    v.push(101);
    assert(v@ =~= spec_name_filename());
    v
}

/// `filename*` as a byte sequence.
pub open spec fn spec_name_filename_star() -> Seq<u8> {
    seq![102u8, 105u8, 108u8, 101u8, 110u8, 97u8, 109u8, 101u8, 42u8]
}

/// Builds the byte name `filename*`.
pub fn name_filename_star() -> (r: Vec<u8>)
    ensures
        r@ == spec_name_filename_star(),
{
    let mut v: Vec<u8> = Vec::new();
    v.push(102);
    v.push(105);
    v.push(108);
    v.push(101);
    v.push(110);
    v.push(97);
    v.push(109);
    v.push(101);
    v.push(42);
    assert(v@ =~= spec_name_filename_star());
    v
}

/// `us-ascii` as a byte sequence.
pub open spec fn spec_name_us_ascii() -> Seq<u8> {
    seq![117u8, 115u8, 45u8, 97u8, 115u8, 99u8, 105u8, 105u8]
}

/// Builds the byte name `us-ascii`.
pub fn name_us_ascii() -> (r: Vec<u8>)
    ensures
        r@ == spec_name_us_ascii(),
{
    let mut v: Vec<u8> = Vec::new();
    v.push(117);
    v.push(115);
    v.push(45);
    v.push(97);
    v.push(115);
    v.push(99);
    v.push(105);
    v.push(105);
    assert(v@ =~= spec_name_us_ascii());
    v
}

/// `iso-8859-1` as a byte sequence.
pub open spec fn spec_name_iso_8859_1() -> Seq<u8> {
    seq![105u8, 115u8, 111u8, 45u8, 56u8, 56u8, 53u8, 57u8, 45u8, 49u8]
}

/// Builds the byte name `iso-8859-1`.
pub fn name_iso_8859_1() -> (r: Vec<u8>)
    ensures
        r@ == spec_name_iso_8859_1(),
{
    let mut v: Vec<u8> = Vec::new();
    v.push(105);
    v.push(115);
    v.push(111);
    v.push(45);
    v.push(56);
    v.push(56);
    v.push(53);
    v.push(57);
    v.push(45);
    v.push(49);
    assert(v@ =~= spec_name_iso_8859_1());
    v
}

/// `iso-8859-2` as a byte sequence.
pub open spec fn spec_name_iso_8859_2() -> Seq<u8> {
    seq![105u8, 115u8, 111u8, 45u8, 56u8, 56u8, 53u8, 57u8, 45u8, 50u8]
}

/// Builds the byte name `iso-8859-2`.
pub fn name_iso_8859_2() -> (r: Vec<u8>)
    ensures
        r@ == spec_name_iso_8859_2(),
{
    let mut v: Vec<u8> = Vec::new();
    v.push(105);
    v.push(115);
    v.push(111);
    v.push(45);
    v.push(56);
    v.push(56);
    v.push(53);
    v.push(57);
    v.push(45);
    v.push(50);
    assert(v@ =~= spec_name_iso_8859_2());
    v
}

/// `iso-8859-3` as a byte sequence.
pub open spec fn spec_name_iso_8859_3() -> Seq<u8> {
    seq![105u8, 115u8, 111u8, 45u8, 56u8, 56u8, 53u8, 57u8, 45u8, 51u8]
}

/// Builds the byte name `iso-8859-3`.
pub fn name_iso_8859_3() -> (r: Vec<u8>)
    ensures
        r@ == spec_name_iso_8859_3(),
{
    let mut v: Vec<u8> = Vec::new();
    v.push(105);
    v.push(115);
    v.push(111);
    v.push(45);
    v.push(56);
    v.push(56);
    v.push(53);
    v.push(57);
    v.push(45);
    v.push(51);
    assert(v@ =~= spec_name_iso_8859_3());
    v
}

/// `iso-8859-4` as a byte sequence.
pub open spec fn spec_name_iso_8859_4() -> Seq<u8> {
    seq![105u8, 115u8, 111u8, 45u8, 56u8, 56u8, 53u8, 57u8, 45u8, 52u8]
}

/// Builds the byte name `iso-8859-4`.
pub fn name_iso_8859_4() -> (r: Vec<u8>)
    ensures
        r@ == spec_name_iso_8859_4(),
{
    let mut v: Vec<u8> = Vec::new();
    v.push(105);
    v.push(115);
    v.push(111);
    v.push(45);
    v.push(56);
    v.push(56);
    v.push(53);
    v.push(57);
    v.push(45);
    v.push(52);
    assert(v@ =~= spec_name_iso_8859_4());
    v
}

/// `iso-8859-5` as a byte sequence.
pub open spec fn spec_name_iso_8859_5() -> Seq<u8> {
    seq![105u8, 115u8, 111u8, 45u8, 56u8, 56u8, 53u8, 57u8, 45u8, 53u8]
}

/// Builds the byte name `iso-8859-5`.
pub fn name_iso_8859_5() -> (r: Vec<u8>)
    ensures
        r@ == spec_name_iso_8859_5(),
{
    let mut v: Vec<u8> = Vec::new();
    v.push(105);
    v.push(115);
    v.push(111);
    v.push(45);
    v.push(56);
    v.push(56);
    v.push(53);
    v.push(57);
    v.push(45);
    v.push(53);
    assert(v@ =~= spec_name_iso_8859_5());
    v
}

/// `iso-8859-6` as a byte sequence.
pub open spec fn spec_name_iso_8859_6() -> Seq<u8> {
    seq![105u8, 115u8, 111u8, 45u8, 56u8, 56u8, 53u8, 57u8, 45u8, 54u8]
}

/// Builds the byte name `iso-8859-6`.
pub fn name_iso_8859_6() -> (r: Vec<u8>)
    ensures
        r@ == spec_name_iso_8859_6(),
{
    let mut v: Vec<u8> = Vec::new();
    v.push(105);
    v.push(115);
    v.push(111);
    v.push(45);
    v.push(56);
    v.push(56);
    v.push(53);
    v.push(57);
    v.push(45);
    v.push(54);
    assert(v@ =~= spec_name_iso_8859_6());
    v
}

/// `iso-8859-7` as a byte sequence.
pub open spec fn spec_name_iso_8859_7() -> Seq<u8> {
    seq![105u8, 115u8, 111u8, 45u8, 56u8, 56u8, 53u8, 57u8, 45u8, 55u8]
}

/// Builds the byte name `iso-8859-7`.
pub fn name_iso_8859_7() -> (r: Vec<u8>)
    ensures
        r@ == spec_name_iso_8859_7(),
{
    let mut v: Vec<u8> = Vec::new();
    v.push(105);
    v.push(115);
    v.push(111);
    v.push(45);
    v.push(56);
    v.push(56);
    v.push(53);
    v.push(57);
    v.push(45);
    v.push(55);
    assert(v@ =~= spec_name_iso_8859_7());
    v
}

/// `iso-8859-8` as a byte sequence.
pub open spec fn spec_name_iso_8859_8() -> Seq<u8> {
    seq![105u8, 115u8, 111u8, 45u8, 56u8, 56u8, 53u8, 57u8, 45u8, 56u8]
}

/// Builds the byte name `iso-8859-8`.
pub fn name_iso_8859_8() -> (r: Vec<u8>)
    ensures
        r@ == spec_name_iso_8859_8(),
{
    let mut v: Vec<u8> = Vec::new();
    v.push(105);
    v.push(115);
    v.push(111);
    v.push(45);
    v.push(56);
    v.push(56);
    v.push(53);
    v.push(57);
    v.push(45);
    v.push(56);
    assert(v@ =~= spec_name_iso_8859_8());
    v
}

/// `iso-8859-9` as a byte sequence.
pub open spec fn spec_name_iso_8859_9() -> Seq<u8> {
    seq![105u8, 115u8, 111u8, 45u8, 56u8, 56u8, 53u8, 57u8, 45u8, 57u8]
}

/// Builds the byte name `iso-8859-9`.
pub fn name_iso_8859_9() -> (r: Vec<u8>)
    ensures
        r@ == spec_name_iso_8859_9(),
{
    let mut v: Vec<u8> = Vec::new();
    v.push(105);
    v.push(115);
    v.push(111);
    v.push(45);
    v.push(56);
    v.push(56);
    v.push(53);
    v.push(57);
    v.push(45);
    v.push(57);
    assert(v@ =~= spec_name_iso_8859_9());
    v
}

/// `iso-8859-10` as a byte sequence.
pub open spec fn spec_name_iso_8859_10() -> Seq<u8> {
    seq![105u8, 115u8, 111u8, 45u8, 56u8, 56u8, 53u8, 57u8, 45u8, 49u8, 48u8]
}

/// Builds the byte name `iso-8859-10`.
pub fn name_iso_8859_10() -> (r: Vec<u8>)
    ensures
        r@ == spec_name_iso_8859_10(),
{
    let mut v: Vec<u8> = Vec::new();
    v.push(105);
    v.push(115);
    v.push(111);
    v.push(45);
    v.push(56);
    v.push(56);
    v.push(53);
    v.push(57);
    v.push(45);
    v.push(49);
    v.push(48);
    assert(v@ =~= spec_name_iso_8859_10());
    v
}

/// `shift_jis` as a byte sequence.
pub open spec fn spec_name_shift_jis() -> Seq<u8> {
    seq![115u8, 104u8, 105u8, 102u8, 116u8, 95u8, 106u8, 105u8, 115u8]
}

/// Builds the byte name `shift_jis`.
pub fn name_shift_jis() -> (r: Vec<u8>)
    ensures
        r@ == spec_name_shift_jis(),
{
    let mut v: Vec<u8> = Vec::new();
    v.push(115);
    v.push(104);
    v.push(105);
    v.push(102);
    v.push(116);
    v.push(95);
    v.push(106);
    v.push(105);
    v.push(115);
    assert(v@ =~= spec_name_shift_jis());
    v
}

/// `euc-jp` as a byte sequence.
pub open spec fn spec_name_euc_jp() -> Seq<u8> {
    seq![101u8, 117u8, 99u8, 45u8, 106u8, 112u8]
}

/// Builds the byte name `euc-jp`.
pub fn name_euc_jp() -> (r: Vec<u8>)
    ensures
        r@ == spec_name_euc_jp(),
{
    let mut v: Vec<u8> = Vec::new();
    v.push(101);
    v.push(117);
    v.push(99);
    v.push(45);
    v.push(106);
    v.push(112);
    assert(v@ =~= spec_name_euc_jp());
    v
}

/// `iso-2022-kr` as a byte sequence.
pub open spec fn spec_name_iso_2022_kr() -> Seq<u8> {
    seq![105u8, 115u8, 111u8, 45u8, 50u8, 48u8, 50u8, 50u8, 45u8, 107u8, 114u8]
}

/// Builds the byte name `iso-2022-kr`.
pub fn name_iso_2022_kr() -> (r: Vec<u8>)
    ensures
        r@ == spec_name_iso_2022_kr(),
{
    let mut v: Vec<u8> = Vec::new();
    v.push(105);
    v.push(115);
    v.push(111);
    v.push(45);
    v.push(50);
    v.push(48);
    v.push(50);
    v.push(50);
    v.push(45);
    v.push(107);
    v.push(114);
    assert(v@ =~= spec_name_iso_2022_kr());
    v
}

/// `euc-kr` as a byte sequence.
pub open spec fn spec_name_euc_kr() -> Seq<u8> {
    seq![101u8, 117u8, 99u8, 45u8, 107u8, 114u8]
}

/// Builds the byte name `euc-kr`.
pub fn name_euc_kr() -> (r: Vec<u8>)
    ensures
        r@ == spec_name_euc_kr(),
{
    let mut v: Vec<u8> = Vec::new();
    v.push(101);
    v.push(117);
    v.push(99);
    v.push(45);
    v.push(107);
    v.push(114);
    assert(v@ =~= spec_name_euc_kr());
    v
}

/// `iso-2022-jp` as a byte sequence.
pub open spec fn spec_name_iso_2022_jp() -> Seq<u8> {
    seq![105u8, 115u8, 111u8, 45u8, 50u8, 48u8, 50u8, 50u8, 45u8, 106u8, 112u8]
}

/// Builds the byte name `iso-2022-jp`.
pub fn name_iso_2022_jp() -> (r: Vec<u8>)
    ensures
        r@ == spec_name_iso_2022_jp(),
{
    let mut v: Vec<u8> = Vec::new();
    v.push(105);
    v.push(115);
    v.push(111);
    v.push(45);
    v.push(50);
    v.push(48);
    v.push(50);
    v.push(50);
    v.push(45);
    v.push(106);
    v.push(112);
    assert(v@ =~= spec_name_iso_2022_jp());
    v
}

/// `iso-2022-jp-2` as a byte sequence.
pub open spec fn spec_name_iso_2022_jp_2() -> Seq<u8> {
    seq![105u8, 115u8, 111u8, 45u8, 50u8, 48u8, 50u8, 50u8, 45u8, 106u8, 112u8, 45u8, 50u8]
}

/// Builds the byte name `iso-2022-jp-2`.
pub fn name_iso_2022_jp_2() -> (r: Vec<u8>)
    ensures
        r@ == spec_name_iso_2022_jp_2(),
{
    let mut v: Vec<u8> = Vec::new();
    v.push(105);
    v.push(115);
    v.push(111);
    v.push(45);
    v.push(50);
    v.push(48);
    v.push(50);
    v.push(50);
    v.push(45);
    v.push(106);
    v.push(112);
    v.push(45);
    v.push(50);
    assert(v@ =~= spec_name_iso_2022_jp_2());
    v
}

/// `gb2312` as a byte sequence.
pub open spec fn spec_name_gb2312() -> Seq<u8> {
    seq![103u8, 98u8, 50u8, 51u8, 49u8, 50u8]
}

/// Builds the byte name `gb2312`.
pub fn name_gb2312() -> (r: Vec<u8>)
    ensures
        r@ == spec_name_gb2312(),
{
    let mut v: Vec<u8> = Vec::new();
    v.push(103);
    v.push(98);
    v.push(50);
    v.push(51);
    v.push(49);
    v.push(50);
    assert(v@ =~= spec_name_gb2312());
    v
}

/// `big5` as a byte sequence.
pub open spec fn spec_name_big5() -> Seq<u8> {
    seq![98u8, 105u8, 103u8, 53u8]
}

/// Builds the byte name `big5`.
pub fn name_big5() -> (r: Vec<u8>)
    ensures
        r@ == spec_name_big5(),
{
    let mut v: Vec<u8> = Vec::new();
    v.push(98);
    v.push(105);
    v.push(103);
    v.push(53);
    assert(v@ =~= spec_name_big5());
    v
}

/// `koi8-r` as a byte sequence.
pub open spec fn spec_name_koi8_r() -> Seq<u8> {
    seq![107u8, 111u8, 105u8, 56u8, 45u8, 114u8]
}

/// Builds the byte name `koi8-r`.
pub fn name_koi8_r() -> (r: Vec<u8>)
    ensures
        r@ == spec_name_koi8_r(),
{
    let mut v: Vec<u8> = Vec::new();
    v.push(107);
    v.push(111);
    v.push(105);
    v.push(56);
    v.push(45);
    v.push(114);
    assert(v@ =~= spec_name_koi8_r());
    v
}

/// `utf-8` as a byte sequence.
pub open spec fn spec_name_utf_8() -> Seq<u8> {
    seq![117u8, 116u8, 102u8, 45u8, 56u8]
}

/// Builds the byte name `utf-8`.
pub fn name_utf_8() -> (r: Vec<u8>)
    ensures
        r@ == spec_name_utf_8(),
{
    let mut v: Vec<u8> = Vec::new();
    v.push(117);
    v.push(116);
    v.push(102);
    v.push(45);
    v.push(56);
    assert(v@ =~= spec_name_utf_8());
    v
}

} // verus!
