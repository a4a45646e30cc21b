//! Fixed byte-string tokens that the extractors and URL builders anchor on.
//!
//! Each token exists twice: a spec constant (`pat_*`) used in contracts and
//! an executable literal (`lit_*`) proved equal to it.

use vstd::prelude::*;

verus! {

/// `"<"`
pub open spec fn pat_lt() -> Seq<u8> {
    seq![60u8]
}

/// `"<"`
pub fn lit_lt() -> (r: [u8; 1])
    ensures
        r@ == pat_lt(),
{
    let r = [60u8];
    assert(r@ =~= pat_lt());
    r
}

/// `">"`
pub open spec fn pat_gt() -> Seq<u8> {
    seq![62u8]
}

/// `">"`
pub fn lit_gt() -> (r: [u8; 1])
    ensures
        r@ == pat_gt(),
{
    let r = [62u8];
    assert(r@ =~= pat_gt());
    r
}

/// `"\""`
pub open spec fn pat_quote() -> Seq<u8> {
    seq![34u8]
}

/// `"\""`
pub fn lit_quote() -> (r: [u8; 1])
    ensures
        r@ == pat_quote(),
{
    let r = [34u8];
    assert(r@ =~= pat_quote());
    r
}

/// `"\n"`
pub open spec fn pat_nl() -> Seq<u8> {
    seq![10u8]
}

/// `"\n"`
pub fn lit_nl() -> (r: [u8; 1])
    ensures
        r@ == pat_nl(),
{
    let r = [10u8];
    assert(r@ =~= pat_nl());
    r
}

/// `"<a"`
pub open spec fn pat_a_open() -> Seq<u8> {
    seq![60u8, 97u8]
}

/// `"<a"`
pub fn lit_a_open() -> (r: [u8; 2])
    ensures
        r@ == pat_a_open(),
{
    let r = [60u8, 97u8];
    assert(r@ =~= pat_a_open());
    r
}

/// `"href=\""`
pub open spec fn pat_href() -> Seq<u8> {
    seq![104u8, 114u8, 101u8, 102u8, 61u8, 34u8]
}

/// `"href=\""`
pub fn lit_href() -> (r: [u8; 6])
    ensures
        r@ == pat_href(),
{
    let r = [104u8, 114u8, 101u8, 102u8, 61u8, 34u8];
    assert(r@ =~= pat_href());
    r
}

/// `"<img"`
pub open spec fn pat_img() -> Seq<u8> {
    seq![60u8, 105u8, 109u8, 103u8]
}

/// `"<img"`
pub fn lit_img() -> (r: [u8; 4])
    ensures
        r@ == pat_img(),
{
    let r = [60u8, 105u8, 109u8, 103u8];
    assert(r@ =~= pat_img());
    r
}

/// `"src=\""`
pub open spec fn pat_src() -> Seq<u8> {
    seq![115u8, 114u8, 99u8, 61u8, 34u8]
}

/// `"src=\""`
pub fn lit_src() -> (r: [u8; 5])
    ensures
        r@ == pat_src(),
{
    let r = [115u8, 114u8, 99u8, 61u8, 34u8];
    assert(r@ =~= pat_src());
    r
}

/// `"<h3"`
pub open spec fn pat_h3() -> Seq<u8> {
    seq![60u8, 104u8, 51u8]
}

/// `"<h3"`
pub fn lit_h3() -> (r: [u8; 3])
    ensures
        r@ == pat_h3(),
{
    let r = [60u8, 104u8, 51u8];
    assert(r@ =~= pat_h3());
    r
}

/// `"</h3>"`
pub open spec fn pat_close_h3() -> Seq<u8> {
    seq![60u8, 47u8, 104u8, 51u8, 62u8]
}

/// `"</h3>"`
pub fn lit_close_h3() -> (r: [u8; 5])
    ensures
        r@ == pat_close_h3(),
{
    let r = [60u8, 47u8, 104u8, 51u8, 62u8];
    assert(r@ =~= pat_close_h3());
    r
}

/// `"<h1"`
pub open spec fn pat_h1() -> Seq<u8> {
    seq![60u8, 104u8, 49u8]
}

/// `"<h1"`
pub fn lit_h1() -> (r: [u8; 3])
    ensures
        r@ == pat_h1(),
{
    let r = [60u8, 104u8, 49u8];
    assert(r@ =~= pat_h1());
    r
}

/// `"</h1>"`
pub open spec fn pat_close_h1() -> Seq<u8> {
    seq![60u8, 47u8, 104u8, 49u8, 62u8]
}

/// `"</h1>"`
pub fn lit_close_h1() -> (r: [u8; 5])
    ensures
        r@ == pat_close_h1(),
{
    let r = [60u8, 47u8, 104u8, 49u8, 62u8];
    assert(r@ =~= pat_close_h1());
    r
}

/// `"<div"`
pub open spec fn pat_div() -> Seq<u8> {
    seq![60u8, 100u8, 105u8, 118u8]
}

/// `"<div"`
pub fn lit_div() -> (r: [u8; 4])
    ensures
        r@ == pat_div(),
{
    let r = [60u8, 100u8, 105u8, 118u8];
    assert(r@ =~= pat_div());
    r
}

/// `"</div>"`
pub open spec fn pat_close_div() -> Seq<u8> {
    seq![60u8, 47u8, 100u8, 105u8, 118u8, 62u8]
}

/// `"</div>"`
pub fn lit_close_div() -> (r: [u8; 6])
    ensures
        r@ == pat_close_div(),
{
    let r = [60u8, 47u8, 100u8, 105u8, 118u8, 62u8];
    assert(r@ =~= pat_close_div());
    r
}

/// `"class=\""`
pub open spec fn pat_class_attr() -> Seq<u8> {
    seq![99u8, 108u8, 97u8, 115u8, 115u8, 61u8, 34u8]
}

/// `"class=\""`
pub fn lit_class_attr() -> (r: [u8; 7])
    ensures
        r@ == pat_class_attr(),
{
    let r = [99u8, 108u8, 97u8, 115u8, 115u8, 61u8, 34u8];
    assert(r@ =~= pat_class_attr());
    r
}

/// `"description"`
pub open spec fn pat_description_cls() -> Seq<u8> {
    seq![100u8, 101u8, 115u8, 99u8, 114u8, 105u8, 112u8, 116u8, 105u8, 111u8, 110u8]
}

/// `"description"`
pub fn lit_description_cls() -> (r: [u8; 11])
    ensures
        r@ == pat_description_cls(),
{
    let r = [100u8, 101u8, 115u8, 99u8, 114u8, 105u8, 112u8, 116u8, 105u8, 111u8, 110u8];
    assert(r@ =~= pat_description_cls());
    r
}

/// `"Author"`
pub open spec fn pat_author_word() -> Seq<u8> {
    seq![65u8, 117u8, 116u8, 104u8, 111u8, 114u8]
}

/// `"Author"`
pub fn lit_author_word() -> (r: [u8; 6])
    ensures
        r@ == pat_author_word(),
{
    let r = [65u8, 117u8, 116u8, 104u8, 111u8, 114u8];
    assert(r@ =~= pat_author_word());
    r
}

/// `"cover"`
pub open spec fn pat_cover_word() -> Seq<u8> {
    seq![99u8, 111u8, 118u8, 101u8, 114u8]
}

/// `"cover"`
pub fn lit_cover_word() -> (r: [u8; 5])
    ensures
        r@ == pat_cover_word(),
{
    let r = [99u8, 111u8, 118u8, 101u8, 114u8];
    assert(r@ =~= pat_cover_word());
    r
}

/// `"Completed"`
pub open spec fn pat_completed_word() -> Seq<u8> {
    seq![67u8, 111u8, 109u8, 112u8, 108u8, 101u8, 116u8, 101u8, 100u8]
}

/// `"Completed"`
pub fn lit_completed_word() -> (r: [u8; 9])
    ensures
        r@ == pat_completed_word(),
{
    let r = [67u8, 111u8, 109u8, 112u8, 108u8, 101u8, 116u8, 101u8, 100u8];
    assert(r@ =~= pat_completed_word());
    r
}

/// `"/manga/"`
pub open spec fn pat_manga_prefix() -> Seq<u8> {
    seq![47u8, 109u8, 97u8, 110u8, 103u8, 97u8, 47u8]
}

/// `"/manga/"`
pub fn lit_manga_prefix() -> (r: [u8; 7])
    ensures
        r@ == pat_manga_prefix(),
{
    let r = [47u8, 109u8, 97u8, 110u8, 103u8, 97u8, 47u8];
    assert(r@ =~= pat_manga_prefix());
    r
}

/// `"/chapters/"`
pub open spec fn pat_chapters_prefix() -> Seq<u8> {
    seq![47u8, 99u8, 104u8, 97u8, 112u8, 116u8, 101u8, 114u8, 115u8, 47u8]
}

/// `"/chapters/"`
pub fn lit_chapters_prefix() -> (r: [u8; 10])
    ensures
        r@ == pat_chapters_prefix(),
{
    let r = [47u8, 99u8, 104u8, 97u8, 112u8, 116u8, 101u8, 114u8, 115u8, 47u8];
    assert(r@ =~= pat_chapters_prefix());
    r
}

/// `"Chapter"`
pub open spec fn pat_chapter_word() -> Seq<u8> {
    seq![67u8, 104u8, 97u8, 112u8, 116u8, 101u8, 114u8]
}

/// `"Chapter"`
pub fn lit_chapter_word() -> (r: [u8; 7])
    ensures
        r@ == pat_chapter_word(),
{
    let r = [67u8, 104u8, 97u8, 112u8, 116u8, 101u8, 114u8];
    assert(r@ =~= pat_chapter_word());
    r
}

/// `"Chapter "`
pub open spec fn pat_chapter_space() -> Seq<u8> {
    seq![67u8, 104u8, 97u8, 112u8, 116u8, 101u8, 114u8, 32u8]
}

/// `"Chapter "`
pub fn lit_chapter_space() -> (r: [u8; 8])
    ensures
        r@ == pat_chapter_space(),
{
    let r = [67u8, 104u8, 97u8, 112u8, 116u8, 101u8, 114u8, 32u8];
    assert(r@ =~= pat_chapter_space());
    r
}

/// `"data-src=\""`
pub open spec fn pat_data_src() -> Seq<u8> {
    seq![100u8, 97u8, 116u8, 97u8, 45u8, 115u8, 114u8, 99u8, 61u8, 34u8]
}

/// `"data-src=\""`
pub fn lit_data_src() -> (r: [u8; 10])
    ensures
        r@ == pat_data_src(),
{
    let r = [100u8, 97u8, 116u8, 97u8, 45u8, 115u8, 114u8, 99u8, 61u8, 34u8];
    assert(r@ =~= pat_data_src());
    r
}

/// `"cdn"`
pub open spec fn pat_cdn() -> Seq<u8> {
    seq![99u8, 100u8, 110u8]
}

/// `"cdn"`
pub fn lit_cdn() -> (r: [u8; 3])
    ensures
        r@ == pat_cdn(),
{
    let r = [99u8, 100u8, 110u8];
    assert(r@ =~= pat_cdn());
    r
}

/// `"<article"`
pub open spec fn pat_article() -> Seq<u8> {
    seq![60u8, 97u8, 114u8, 116u8, 105u8, 99u8, 108u8, 101u8]
}

/// `"<article"`
pub fn lit_article() -> (r: [u8; 8])
    ensures
        r@ == pat_article(),
{
    let r = [60u8, 97u8, 114u8, 116u8, 105u8, 99u8, 108u8, 101u8];
    assert(r@ =~= pat_article());
    r
}

/// `"</article>"`
pub open spec fn pat_close_article() -> Seq<u8> {
    seq![60u8, 47u8, 97u8, 114u8, 116u8, 105u8, 99u8, 108u8, 101u8, 62u8]
}

/// `"</article>"`
pub fn lit_close_article() -> (r: [u8; 10])
    ensures
        r@ == pat_close_article(),
{
    let r = [60u8, 47u8, 97u8, 114u8, 116u8, 105u8, 99u8, 108u8, 101u8, 62u8];
    assert(r@ =~= pat_close_article());
    r
}

/// `"<section"`
pub open spec fn pat_section_tag() -> Seq<u8> {
    seq![60u8, 115u8, 101u8, 99u8, 116u8, 105u8, 111u8, 110u8]
}

/// `"<section"`
pub fn lit_section_tag() -> (r: [u8; 8])
    ensures
        r@ == pat_section_tag(),
{
    let r = [60u8, 115u8, 101u8, 99u8, 116u8, 105u8, 111u8, 110u8];
    assert(r@ =~= pat_section_tag());
    r
}

/// `"</section>"`
pub open spec fn pat_close_section() -> Seq<u8> {
    seq![60u8, 47u8, 115u8, 101u8, 99u8, 116u8, 105u8, 111u8, 110u8, 62u8]
}

/// `"</section>"`
pub fn lit_close_section() -> (r: [u8; 10])
    ensures
        r@ == pat_close_section(),
{
    let r = [60u8, 47u8, 115u8, 101u8, 99u8, 116u8, 105u8, 111u8, 110u8, 62u8];
    assert(r@ =~= pat_close_section());
    r
}

/// `"</a>"`
pub open spec fn pat_close_a() -> Seq<u8> {
    seq![60u8, 47u8, 97u8, 62u8]
}

/// `"</a>"`
pub fn lit_close_a() -> (r: [u8; 4])
    ensures
        r@ == pat_close_a(),
{
    let r = [60u8, 47u8, 97u8, 62u8];
    assert(r@ =~= pat_close_a());
    r
}

/// `"<span"`
pub open spec fn pat_span_tag() -> Seq<u8> {
    seq![60u8, 115u8, 112u8, 97u8, 110u8]
}

/// `"<span"`
pub fn lit_span_tag() -> (r: [u8; 5])
    ensures
        r@ == pat_span_tag(),
{
    let r = [60u8, 115u8, 112u8, 97u8, 110u8];
    assert(r@ =~= pat_span_tag());
    r
}

/// `"</span>"`
pub open spec fn pat_close_span() -> Seq<u8> {
    seq![60u8, 47u8, 115u8, 112u8, 97u8, 110u8, 62u8]
}

/// `"</span>"`
pub fn lit_close_span() -> (r: [u8; 7])
    ensures
        r@ == pat_close_span(),
{
    let r = [60u8, 47u8, 115u8, 112u8, 97u8, 110u8, 62u8];
    assert(r@ =~= pat_close_span());
    r
}

/// `"x-data"`
pub open spec fn pat_x_data() -> Seq<u8> {
    seq![120u8, 45u8, 100u8, 97u8, 116u8, 97u8]
}

/// `"x-data"`
pub fn lit_x_data() -> (r: [u8; 6])
    ensures
        r@ == pat_x_data(),
{
    let r = [120u8, 45u8, 100u8, 97u8, 116u8, 97u8];
    assert(r@ =~= pat_x_data());
    r
}

/// `"Official "`
pub open spec fn pat_official() -> Seq<u8> {
    seq![79u8, 102u8, 102u8, 105u8, 99u8, 105u8, 97u8, 108u8, 32u8]
}

/// `"Official "`
pub fn lit_official() -> (r: [u8; 9])
    ensures
        r@ == pat_official(),
{
    let r = [79u8, 102u8, 102u8, 105u8, 99u8, 105u8, 97u8, 108u8, 32u8];
    assert(r@ =~= pat_official());
    r
}

/// `"Volume"`
pub open spec fn pat_volume_word() -> Seq<u8> {
    seq![86u8, 111u8, 108u8, 117u8, 109u8, 101u8]
}

/// `"Volume"`
pub fn lit_volume_word() -> (r: [u8; 6])
    ensures
        r@ == pat_volume_word(),
{
    let r = [86u8, 111u8, 108u8, 117u8, 109u8, 101u8];
    assert(r@ =~= pat_volume_word());
    r
}

/// `"Complete"`
pub open spec fn pat_complete_word() -> Seq<u8> {
    seq![67u8, 111u8, 109u8, 112u8, 108u8, 101u8, 116u8, 101u8]
}

/// `"Complete"`
pub fn lit_complete_word() -> (r: [u8; 8])
    ensures
        r@ == pat_complete_word(),
{
    let r = [67u8, 111u8, 109u8, 112u8, 108u8, 101u8, 116u8, 101u8];
    assert(r@ =~= pat_complete_word());
    r
}

/// `"Ongoing"`
pub open spec fn pat_ongoing_word() -> Seq<u8> {
    seq![79u8, 110u8, 103u8, 111u8, 105u8, 110u8, 103u8]
}

/// `"Ongoing"`
pub fn lit_ongoing_word() -> (r: [u8; 7])
    ensures
        r@ == pat_ongoing_word(),
{
    let r = [79u8, 110u8, 103u8, 111u8, 105u8, 110u8, 103u8];
    assert(r@ =~= pat_ongoing_word());
    r
}

/// `"Hiatus"`
pub open spec fn pat_hiatus_word() -> Seq<u8> {
    seq![72u8, 105u8, 97u8, 116u8, 117u8, 115u8]
}

/// `"Hiatus"`
pub fn lit_hiatus_word() -> (r: [u8; 6])
    ensures
        r@ == pat_hiatus_word(),
{
    let r = [72u8, 105u8, 97u8, 116u8, 117u8, 115u8];
    assert(r@ =~= pat_hiatus_word());
    r
}

/// `"Canceled"`
pub open spec fn pat_canceled_word() -> Seq<u8> {
    seq![67u8, 97u8, 110u8, 99u8, 101u8, 108u8, 101u8, 100u8]
}

/// `"Canceled"`
pub fn lit_canceled_word() -> (r: [u8; 8])
    ensures
        r@ == pat_canceled_word(),
{
    let r = [67u8, 97u8, 110u8, 99u8, 101u8, 108u8, 101u8, 100u8];
    assert(r@ =~= pat_canceled_word());
    r
}

/// `"Adult"`
pub open spec fn pat_adult_word() -> Seq<u8> {
    seq![65u8, 100u8, 117u8, 108u8, 116u8]
}

/// `"Adult"`
pub fn lit_adult_word() -> (r: [u8; 5])
    ensures
        r@ == pat_adult_word(),
{
    let r = [65u8, 100u8, 117u8, 108u8, 116u8];
    assert(r@ =~= pat_adult_word());
    r
}

/// `"Hentai"`
pub open spec fn pat_hentai_word() -> Seq<u8> {
    seq![72u8, 101u8, 110u8, 116u8, 97u8, 105u8]
}

/// `"Hentai"`
pub fn lit_hentai_word() -> (r: [u8; 6])
    ensures
        r@ == pat_hentai_word(),
{
    let r = [72u8, 101u8, 110u8, 116u8, 97u8, 105u8];
    assert(r@ =~= pat_hentai_word());
    r
}

/// `"Mature"`
pub open spec fn pat_mature_word() -> Seq<u8> {
    seq![77u8, 97u8, 116u8, 117u8, 114u8, 101u8]
}

/// `"Mature"`
pub fn lit_mature_word() -> (r: [u8; 6])
    ensures
        r@ == pat_mature_word(),
{
    let r = [77u8, 97u8, 116u8, 117u8, 114u8, 101u8];
    assert(r@ =~= pat_mature_word());
    r
}

/// `"Description"`
pub open spec fn pat_description_cap() -> Seq<u8> {
    seq![68u8, 101u8, 115u8, 99u8, 114u8, 105u8, 112u8, 116u8, 105u8, 111u8, 110u8]
}

/// `"Description"`
pub fn lit_description_cap() -> (r: [u8; 11])
    ensures
        r@ == pat_description_cap(),
{
    let r = [68u8, 101u8, 115u8, 99u8, 114u8, 105u8, 112u8, 116u8, 105u8, 111u8, 110u8];
    assert(r@ =~= pat_description_cap());
    r
}

/// `"<p>"`
pub open spec fn pat_p_open() -> Seq<u8> {
    seq![60u8, 112u8, 62u8]
}

/// `"<p>"`
pub fn lit_p_open() -> (r: [u8; 3])
    ensures
        r@ == pat_p_open(),
{
    let r = [60u8, 112u8, 62u8];
    assert(r@ =~= pat_p_open());
    r
}

/// `"</p>"`
pub open spec fn pat_close_p() -> Seq<u8> {
    seq![60u8, 47u8, 112u8, 62u8]
}

/// `"</p>"`
pub fn lit_close_p() -> (r: [u8; 4])
    ensures
        r@ == pat_close_p(),
{
    let r = [60u8, 47u8, 112u8, 62u8];
    assert(r@ =~= pat_close_p());
    r
}

/// `"section"`
pub open spec fn pat_section_word() -> Seq<u8> {
    seq![115u8, 101u8, 99u8, 116u8, 105u8, 111u8, 110u8]
}

/// `"section"`
pub fn lit_section_word() -> (r: [u8; 7])
    ensures
        r@ == pat_section_word(),
{
    let r = [115u8, 101u8, 99u8, 116u8, 105u8, 111u8, 110u8];
    assert(r@ =~= pat_section_word());
    r
}

/// `"scroll"`
pub open spec fn pat_scroll_word() -> Seq<u8> {
    seq![115u8, 99u8, 114u8, 111u8, 108u8, 108u8]
}

/// `"scroll"`
pub fn lit_scroll_word() -> (r: [u8; 6])
    ensures
        r@ == pat_scroll_word(),
{
    let r = [115u8, 99u8, 114u8, 111u8, 108u8, 108u8];
    assert(r@ =~= pat_scroll_word());
    r
}

/// `".jpg"`
pub open spec fn pat_ext_jpg() -> Seq<u8> {
    seq![46u8, 106u8, 112u8, 103u8]
}

/// `".jpg"`
pub fn lit_ext_jpg() -> (r: [u8; 4])
    ensures
        r@ == pat_ext_jpg(),
{
    let r = [46u8, 106u8, 112u8, 103u8];
    assert(r@ =~= pat_ext_jpg());
    r
}

/// `".jpeg"`
pub open spec fn pat_ext_jpeg() -> Seq<u8> {
    seq![46u8, 106u8, 112u8, 101u8, 103u8]
}

/// `".jpeg"`
pub fn lit_ext_jpeg() -> (r: [u8; 5])
    ensures
        r@ == pat_ext_jpeg(),
{
    let r = [46u8, 106u8, 112u8, 101u8, 103u8];
    assert(r@ =~= pat_ext_jpeg());
    r
}

/// `".png"`
pub open spec fn pat_ext_png() -> Seq<u8> {
    seq![46u8, 112u8, 110u8, 103u8]
}

/// `".png"`
pub fn lit_ext_png() -> (r: [u8; 4])
    ensures
        r@ == pat_ext_png(),
{
    let r = [46u8, 112u8, 110u8, 103u8];
    assert(r@ =~= pat_ext_png());
    r
}

/// `".webp"`
pub open spec fn pat_ext_webp() -> Seq<u8> {
    seq![46u8, 119u8, 101u8, 98u8, 112u8]
}

/// `".webp"`
pub fn lit_ext_webp() -> (r: [u8; 5])
    ensures
        r@ == pat_ext_webp(),
{
    let r = [46u8, 119u8, 101u8, 98u8, 112u8];
    assert(r@ =~= pat_ext_webp());
    r
}

/// `"&amp;"`
pub open spec fn pat_e_amp() -> Seq<u8> {
    seq![38u8, 97u8, 109u8, 112u8, 59u8]
}

/// `"&amp;"`
pub fn lit_e_amp() -> (r: [u8; 5])
    ensures
        r@ == pat_e_amp(),
{
    let r = [38u8, 97u8, 109u8, 112u8, 59u8];
    assert(r@ =~= pat_e_amp());
    r
}

/// `"&"`
pub open spec fn pat_amp() -> Seq<u8> {
    seq![38u8]
}

/// `"&"`
pub fn lit_amp() -> (r: [u8; 1])
    ensures
        r@ == pat_amp(),
{
    let r = [38u8];
    assert(r@ =~= pat_amp());
    r
}

/// `"&lt;"`
pub open spec fn pat_e_lt() -> Seq<u8> {
    seq![38u8, 108u8, 116u8, 59u8]
}

/// `"&lt;"`
pub fn lit_e_lt() -> (r: [u8; 4])
    ensures
        r@ == pat_e_lt(),
{
    let r = [38u8, 108u8, 116u8, 59u8];
    assert(r@ =~= pat_e_lt());
    r
}

/// `"&gt;"`
pub open spec fn pat_e_gt() -> Seq<u8> {
    seq![38u8, 103u8, 116u8, 59u8]
}

/// `"&gt;"`
pub fn lit_e_gt() -> (r: [u8; 4])
    ensures
        r@ == pat_e_gt(),
{
    let r = [38u8, 103u8, 116u8, 59u8];
    assert(r@ =~= pat_e_gt());
    r
}

/// `"&quot;"`
pub open spec fn pat_e_quot() -> Seq<u8> {
    seq![38u8, 113u8, 117u8, 111u8, 116u8, 59u8]
}

/// `"&quot;"`
pub fn lit_e_quot() -> (r: [u8; 6])
    ensures
        r@ == pat_e_quot(),
{
    let r = [38u8, 113u8, 117u8, 111u8, 116u8, 59u8];
    assert(r@ =~= pat_e_quot());
    r
}

/// `"&#39;"`
pub open spec fn pat_e_39() -> Seq<u8> {
    seq![38u8, 35u8, 51u8, 57u8, 59u8]
}

/// `"&#39;"`
pub fn lit_e_39() -> (r: [u8; 5])
    ensures
        r@ == pat_e_39(),
{
    let r = [38u8, 35u8, 51u8, 57u8, 59u8];
    assert(r@ =~= pat_e_39());
    r
}

/// `"'"`
pub open spec fn pat_apos() -> Seq<u8> {
    seq![39u8]
}

/// `"'"`
pub fn lit_apos() -> (r: [u8; 1])
    ensures
        r@ == pat_apos(),
{
    let r = [39u8];
    assert(r@ =~= pat_apos());
    r
}

/// `"&nbsp;"`
pub open spec fn pat_e_nbsp() -> Seq<u8> {
    seq![38u8, 110u8, 98u8, 115u8, 112u8, 59u8]
}

/// `"&nbsp;"`
pub fn lit_e_nbsp() -> (r: [u8; 6])
    ensures
        r@ == pat_e_nbsp(),
{
    let r = [38u8, 110u8, 98u8, 115u8, 112u8, 59u8];
    assert(r@ =~= pat_e_nbsp());
    r
}

/// `" "`
pub open spec fn pat_space() -> Seq<u8> {
    seq![32u8]
}

/// `" "`
pub fn lit_space() -> (r: [u8; 1])
    ensures
        r@ == pat_space(),
{
    let r = [32u8];
    assert(r@ =~= pat_space());
    r
}

/// `"&#x27;"`
pub open spec fn pat_e_x27() -> Seq<u8> {
    seq![38u8, 35u8, 120u8, 50u8, 55u8, 59u8]
}

/// `"&#x27;"`
pub fn lit_e_x27() -> (r: [u8; 6])
    ensures
        r@ == pat_e_x27(),
{
    let r = [38u8, 35u8, 120u8, 50u8, 55u8, 59u8];
    assert(r@ =~= pat_e_x27());
    r
}

/// `"&#x2F;"`
pub open spec fn pat_e_x2f() -> Seq<u8> {
    seq![38u8, 35u8, 120u8, 50u8, 70u8, 59u8]
}

/// `"&#x2F;"`
pub fn lit_e_x2f() -> (r: [u8; 6])
    ensures
        r@ == pat_e_x2f(),
{
    let r = [38u8, 35u8, 120u8, 50u8, 70u8, 59u8];
    assert(r@ =~= pat_e_x2f());
    r
}

/// `"/"`
pub open spec fn pat_slash() -> Seq<u8> {
    seq![47u8]
}

/// `"/"`
pub fn lit_slash() -> (r: [u8; 1])
    ensures
        r@ == pat_slash(),
{
    let r = [47u8];
    assert(r@ =~= pat_slash());
    r
}

/// `"Unknown"`
pub open spec fn pat_unknown_word() -> Seq<u8> {
    seq![85u8, 110u8, 107u8, 110u8, 111u8, 119u8, 110u8]
}

/// `"Unknown"`
pub fn lit_unknown_word() -> (r: [u8; 7])
    ensures
        r@ == pat_unknown_word(),
{
    let r = [85u8, 110u8, 107u8, 110u8, 111u8, 119u8, 110u8];
    assert(r@ =~= pat_unknown_word());
    r
}

/// `"en"`
pub open spec fn pat_lang_en() -> Seq<u8> {
    seq![101u8, 110u8]
}

/// `"en"`
pub fn lit_lang_en() -> (r: [u8; 2])
    ensures
        r@ == pat_lang_en(),
{
    let r = [101u8, 110u8];
    assert(r@ =~= pat_lang_en());
    r
}

/// `"https://www.mangapill.com"`
pub open spec fn pat_mp_base() -> Seq<u8> {
    seq![104u8, 116u8, 116u8, 112u8, 115u8, 58u8, 47u8, 47u8, 119u8, 119u8, 119u8, 46u8, 109u8, 97u8, 110u8, 103u8, 97u8, 112u8, 105u8, 108u8, 108u8, 46u8, 99u8, 111u8, 109u8]
}

/// `"https://www.mangapill.com"`
pub fn lit_mp_base() -> (r: [u8; 25])
    ensures
        r@ == pat_mp_base(),
{
    let r = [104u8, 116u8, 116u8, 112u8, 115u8, 58u8, 47u8, 47u8, 119u8, 119u8, 119u8, 46u8, 109u8, 97u8, 110u8, 103u8, 97u8, 112u8, 105u8, 108u8, 108u8, 46u8, 99u8, 111u8, 109u8];
    assert(r@ =~= pat_mp_base());
    r
}

/// `"https://weebcentral.com"`
pub open spec fn pat_wc_base() -> Seq<u8> {
    seq![104u8, 116u8, 116u8, 112u8, 115u8, 58u8, 47u8, 47u8, 119u8, 101u8, 101u8, 98u8, 99u8, 101u8, 110u8, 116u8, 114u8, 97u8, 108u8, 46u8, 99u8, 111u8, 109u8]
}

/// `"https://weebcentral.com"`
pub fn lit_wc_base() -> (r: [u8; 23])
    ensures
        r@ == pat_wc_base(),
{
    let r = [104u8, 116u8, 116u8, 112u8, 115u8, 58u8, 47u8, 47u8, 119u8, 101u8, 101u8, 98u8, 99u8, 101u8, 110u8, 116u8, 114u8, 97u8, 108u8, 46u8, 99u8, 111u8, 109u8];
    assert(r@ =~= pat_wc_base());
    r
}

/// `"/updates?page="`
pub open spec fn pat_mp_updates() -> Seq<u8> {
    seq![47u8, 117u8, 112u8, 100u8, 97u8, 116u8, 101u8, 115u8, 63u8, 112u8, 97u8, 103u8, 101u8, 61u8]
}

/// `"/updates?page="`
pub fn lit_mp_updates() -> (r: [u8; 14])
    ensures
        r@ == pat_mp_updates(),
{
    let r = [47u8, 117u8, 112u8, 100u8, 97u8, 116u8, 101u8, 115u8, 63u8, 112u8, 97u8, 103u8, 101u8, 61u8];
    assert(r@ =~= pat_mp_updates());
    r
}

/// `"/search?q="`
pub open spec fn pat_mp_search() -> Seq<u8> {
    seq![47u8, 115u8, 101u8, 97u8, 114u8, 99u8, 104u8, 63u8, 113u8, 61u8]
}

/// `"/search?q="`
pub fn lit_mp_search() -> (r: [u8; 10])
    ensures
        r@ == pat_mp_search(),
{
    let r = [47u8, 115u8, 101u8, 97u8, 114u8, 99u8, 104u8, 63u8, 113u8, 61u8];
    assert(r@ =~= pat_mp_search());
    r
}

/// `"&page="`
pub open spec fn pat_amp_page() -> Seq<u8> {
    seq![38u8, 112u8, 97u8, 103u8, 101u8, 61u8]
}

/// `"&page="`
pub fn lit_amp_page() -> (r: [u8; 6])
    ensures
        r@ == pat_amp_page(),
{
    let r = [38u8, 112u8, 97u8, 103u8, 101u8, 61u8];
    assert(r@ =~= pat_amp_page());
    r
}

/// `"/search/data?limit=24&offset="`
pub open spec fn pat_wc_search_a() -> Seq<u8> {
    seq![47u8, 115u8, 101u8, 97u8, 114u8, 99u8, 104u8, 47u8, 100u8, 97u8, 116u8, 97u8, 63u8, 108u8, 105u8, 109u8, 105u8, 116u8, 61u8, 50u8, 52u8, 38u8, 111u8, 102u8, 102u8, 115u8, 101u8, 116u8, 61u8]
}

/// `"/search/data?limit=24&offset="`
pub fn lit_wc_search_a() -> (r: [u8; 29])
    ensures
        r@ == pat_wc_search_a(),
{
    let r = [47u8, 115u8, 101u8, 97u8, 114u8, 99u8, 104u8, 47u8, 100u8, 97u8, 116u8, 97u8, 63u8, 108u8, 105u8, 109u8, 105u8, 116u8, 61u8, 50u8, 52u8, 38u8, 111u8, 102u8, 102u8, 115u8, 101u8, 116u8, 61u8];
    assert(r@ =~= pat_wc_search_a());
    r
}

/// `"&display_mode=Full%20Display&sort=Latest%20Updates&order=Descending"`
pub open spec fn pat_wc_search_latest() -> Seq<u8> {
    seq![38u8, 100u8, 105u8, 115u8, 112u8, 108u8, 97u8, 121u8, 95u8, 109u8, 111u8, 100u8, 101u8, 61u8, 70u8, 117u8, 108u8, 108u8, 37u8, 50u8, 48u8, 68u8, 105u8, 115u8, 112u8, 108u8, 97u8, 121u8, 38u8, 115u8, 111u8, 114u8, 116u8, 61u8, 76u8, 97u8, 116u8, 101u8, 115u8, 116u8, 37u8, 50u8, 48u8, 85u8, 112u8, 100u8, 97u8, 116u8, 101u8, 115u8, 38u8, 111u8, 114u8, 100u8, 101u8, 114u8, 61u8, 68u8, 101u8, 115u8, 99u8, 101u8, 110u8, 100u8, 105u8, 110u8, 103u8]
}

/// `"&display_mode=Full%20Display&sort=Latest%20Updates&order=Descending"`
pub fn lit_wc_search_latest() -> (r: [u8; 67])
    ensures
        r@ == pat_wc_search_latest(),
{
    let r = [38u8, 100u8, 105u8, 115u8, 112u8, 108u8, 97u8, 121u8, 95u8, 109u8, 111u8, 100u8, 101u8, 61u8, 70u8, 117u8, 108u8, 108u8, 37u8, 50u8, 48u8, 68u8, 105u8, 115u8, 112u8, 108u8, 97u8, 121u8, 38u8, 115u8, 111u8, 114u8, 116u8, 61u8, 76u8, 97u8, 116u8, 101u8, 115u8, 116u8, 37u8, 50u8, 48u8, 85u8, 112u8, 100u8, 97u8, 116u8, 101u8, 115u8, 38u8, 111u8, 114u8, 100u8, 101u8, 114u8, 61u8, 68u8, 101u8, 115u8, 99u8, 101u8, 110u8, 100u8, 105u8, 110u8, 103u8];
    assert(r@ =~= pat_wc_search_latest());
    r
}

/// `"&display_mode=Full%20Display&text="`
pub open spec fn pat_wc_search_text() -> Seq<u8> {
    seq![38u8, 100u8, 105u8, 115u8, 112u8, 108u8, 97u8, 121u8, 95u8, 109u8, 111u8, 100u8, 101u8, 61u8, 70u8, 117u8, 108u8, 108u8, 37u8, 50u8, 48u8, 68u8, 105u8, 115u8, 112u8, 108u8, 97u8, 121u8, 38u8, 116u8, 101u8, 120u8, 116u8, 61u8]
}

/// `"&display_mode=Full%20Display&text="`
pub fn lit_wc_search_text() -> (r: [u8; 34])
    ensures
        r@ == pat_wc_search_text(),
{
    let r = [38u8, 100u8, 105u8, 115u8, 112u8, 108u8, 97u8, 121u8, 95u8, 109u8, 111u8, 100u8, 101u8, 61u8, 70u8, 117u8, 108u8, 108u8, 37u8, 50u8, 48u8, 68u8, 105u8, 115u8, 112u8, 108u8, 97u8, 121u8, 38u8, 116u8, 101u8, 120u8, 116u8, 61u8];
    assert(r@ =~= pat_wc_search_text());
    r
}

/// `"&sort=Relevance&order=Descending"`
pub open spec fn pat_wc_search_rel() -> Seq<u8> {
    seq![38u8, 115u8, 111u8, 114u8, 116u8, 61u8, 82u8, 101u8, 108u8, 101u8, 118u8, 97u8, 110u8, 99u8, 101u8, 38u8, 111u8, 114u8, 100u8, 101u8, 114u8, 61u8, 68u8, 101u8, 115u8, 99u8, 101u8, 110u8, 100u8, 105u8, 110u8, 103u8]
}

/// `"&sort=Relevance&order=Descending"`
pub fn lit_wc_search_rel() -> (r: [u8; 32])
    ensures
        r@ == pat_wc_search_rel(),
{
    let r = [38u8, 115u8, 111u8, 114u8, 116u8, 61u8, 82u8, 101u8, 108u8, 101u8, 118u8, 97u8, 110u8, 99u8, 101u8, 38u8, 111u8, 114u8, 100u8, 101u8, 114u8, 61u8, 68u8, 101u8, 115u8, 99u8, 101u8, 110u8, 100u8, 105u8, 110u8, 103u8];
    assert(r@ =~= pat_wc_search_rel());
    r
}

/// `"/full-chapter-list"`
pub open spec fn pat_wc_chlist() -> Seq<u8> {
    seq![47u8, 102u8, 117u8, 108u8, 108u8, 45u8, 99u8, 104u8, 97u8, 112u8, 116u8, 101u8, 114u8, 45u8, 108u8, 105u8, 115u8, 116u8]
}

/// `"/full-chapter-list"`
pub fn lit_wc_chlist() -> (r: [u8; 18])
    ensures
        r@ == pat_wc_chlist(),
{
    let r = [47u8, 102u8, 117u8, 108u8, 108u8, 45u8, 99u8, 104u8, 97u8, 112u8, 116u8, 101u8, 114u8, 45u8, 108u8, 105u8, 115u8, 116u8];
    assert(r@ =~= pat_wc_chlist());
    r
}

/// `"/images?is_prev=False&reading_style=long_strip"`
pub open spec fn pat_wc_images() -> Seq<u8> {
    seq![47u8, 105u8, 109u8, 97u8, 103u8, 101u8, 115u8, 63u8, 105u8, 115u8, 95u8, 112u8, 114u8, 101u8, 118u8, 61u8, 70u8, 97u8, 108u8, 115u8, 101u8, 38u8, 114u8, 101u8, 97u8, 100u8, 105u8, 110u8, 103u8, 95u8, 115u8, 116u8, 121u8, 108u8, 101u8, 61u8, 108u8, 111u8, 110u8, 103u8, 95u8, 115u8, 116u8, 114u8, 105u8, 112u8]
}

/// `"/images?is_prev=False&reading_style=long_strip"`
pub fn lit_wc_images() -> (r: [u8; 46])
    ensures
        r@ == pat_wc_images(),
{
    let r = [47u8, 105u8, 109u8, 97u8, 103u8, 101u8, 115u8, 63u8, 105u8, 115u8, 95u8, 112u8, 114u8, 101u8, 118u8, 61u8, 70u8, 97u8, 108u8, 115u8, 101u8, 38u8, 114u8, 101u8, 97u8, 100u8, 105u8, 110u8, 103u8, 95u8, 115u8, 116u8, 121u8, 108u8, 101u8, 61u8, 108u8, 111u8, 110u8, 103u8, 95u8, 115u8, 116u8, 114u8, 105u8, 112u8];
    assert(r@ =~= pat_wc_images());
    r
}

/// `"jpg"`
pub open spec fn pat_jpg_default() -> Seq<u8> {
    seq![106u8, 112u8, 103u8]
}

/// `"jpg"`
pub fn lit_jpg_default() -> (r: [u8; 3])
    ensures
        r@ == pat_jpg_default(),
{
    let r = [106u8, 112u8, 103u8];
    assert(r@ =~= pat_jpg_default());
    r
}

/// `"/001.jpg"`
pub open spec fn pat_first_page() -> Seq<u8> {
    seq![47u8, 48u8, 48u8, 49u8, 46u8, 106u8, 112u8, 103u8]
}

/// `"/001.jpg"`
pub fn lit_first_page() -> (r: [u8; 8])
    ensures
        r@ == pat_first_page(),
{
    let r = [47u8, 48u8, 48u8, 49u8, 46u8, 106u8, 112u8, 103u8];
    assert(r@ =~= pat_first_page());
    r
}

/// `"sources/"`
pub open spec fn pat_sources_dir() -> Seq<u8> {
    seq![115u8, 111u8, 117u8, 114u8, 99u8, 101u8, 115u8, 47u8]
}

/// `"sources/"`
pub fn lit_sources_dir() -> (r: [u8; 8])
    ensures
        r@ == pat_sources_dir(),
{
    let r = [115u8, 111u8, 117u8, 114u8, 99u8, 101u8, 115u8, 47u8];
    assert(r@ =~= pat_sources_dir());
    r
}

/// `".aix"`
pub open spec fn pat_aix_ext() -> Seq<u8> {
    seq![46u8, 97u8, 105u8, 120u8]
}

/// `".aix"`
pub fn lit_aix_ext() -> (r: [u8; 4])
    ensures
        r@ == pat_aix_ext(),
{
    let r = [46u8, 97u8, 105u8, 120u8];
    assert(r@ =~= pat_aix_ext());
    r
}

/// `"en.mangapill"`
pub open spec fn pat_id_mangapill() -> Seq<u8> {
    seq![101u8, 110u8, 46u8, 109u8, 97u8, 110u8, 103u8, 97u8, 112u8, 105u8, 108u8, 108u8]
}

/// `"en.mangapill"`
pub fn lit_id_mangapill() -> (r: [u8; 12])
    ensures
        r@ == pat_id_mangapill(),
{
    let r = [101u8, 110u8, 46u8, 109u8, 97u8, 110u8, 103u8, 97u8, 112u8, 105u8, 108u8, 108u8];
    assert(r@ =~= pat_id_mangapill());
    r
}

/// `"en.weebcentral"`
pub open spec fn pat_id_weebcentral() -> Seq<u8> {
    seq![101u8, 110u8, 46u8, 119u8, 101u8, 101u8, 98u8, 99u8, 101u8, 110u8, 116u8, 114u8, 97u8, 108u8]
}

/// `"en.weebcentral"`
pub fn lit_id_weebcentral() -> (r: [u8; 14])
    ensures
        r@ == pat_id_weebcentral(),
{
    let r = [101u8, 110u8, 46u8, 119u8, 101u8, 101u8, 98u8, 99u8, 101u8, 110u8, 116u8, 114u8, 97u8, 108u8];
    assert(r@ =~= pat_id_weebcentral());
    r
}

/// `"MangaPill"`
pub open spec fn pat_name_mangapill() -> Seq<u8> {
    seq![77u8, 97u8, 110u8, 103u8, 97u8, 80u8, 105u8, 108u8, 108u8]
}

/// `"MangaPill"`
pub fn lit_name_mangapill() -> (r: [u8; 9])
    ensures
        r@ == pat_name_mangapill(),
{
    let r = [77u8, 97u8, 110u8, 103u8, 97u8, 80u8, 105u8, 108u8, 108u8];
    assert(r@ =~= pat_name_mangapill());
    r
}

/// `"WeebCentral"`
pub open spec fn pat_name_weebcentral() -> Seq<u8> {
    seq![87u8, 101u8, 101u8, 98u8, 67u8, 101u8, 110u8, 116u8, 114u8, 97u8, 108u8]
}

/// `"WeebCentral"`
pub fn lit_name_weebcentral() -> (r: [u8; 11])
    ensures
        r@ == pat_name_weebcentral(),
{
    let r = [87u8, 101u8, 101u8, 98u8, 67u8, 101u8, 110u8, 116u8, 114u8, 97u8, 108u8];
    assert(r@ =~= pat_name_weebcentral());
    r
}

/// `"built-in"`
pub open spec fn pat_builtin_word() -> Seq<u8> {
    seq![98u8, 117u8, 105u8, 108u8, 116u8, 45u8, 105u8, 110u8]
}

/// `"built-in"`
pub fn lit_builtin_word() -> (r: [u8; 8])
    ensures
        r@ == pat_builtin_word(),
{
    let r = [98u8, 117u8, 105u8, 108u8, 116u8, 45u8, 105u8, 110u8];
    assert(r@ =~= pat_builtin_word());
    r
}

/// `"1.0.0"`
pub open spec fn pat_version_one() -> Seq<u8> {
    seq![49u8, 46u8, 48u8, 46u8, 48u8]
}

/// `"1.0.0"`
pub fn lit_version_one() -> (r: [u8; 5])
    ensures
        r@ == pat_version_one(),
{
    let r = [49u8, 46u8, 48u8, 46u8, 48u8];
    assert(r@ =~= pat_version_one());
    r
}

} // verus!
