use vstd::prelude::*;
use vstd::seq_lib::*;

use crate::error::DownloadError;
use crate::config::DataType;

verus! {

/// The fixed origin every manifest entry is relative to.
pub open spec fn origin() -> Seq<char> {
    "https://data.commoncrawl.org/"@
}

pub fn origin_string() -> (r: String)
    ensures
        r@ == origin(),
{
    "https://data.commoncrawl.org/".to_owned()
}

pub const LINE_FEED: u8 = 10;

pub const CARRIAGE_RETURN: u8 = 13;

/// The manifest byte stream cut at every line feed. The cut points themselves
/// are not part of any segment; a trailing line feed leaves a final empty
/// segment.
pub open spec fn split_segments(bytes: Seq<u8>) -> Seq<Seq<u8>>
    decreases bytes.len(),
{
    if bytes.len() == 0 {
        seq![Seq::<u8>::empty()]
    } else {
        let rest = split_segments(bytes.drop_last());
        if bytes.last() == LINE_FEED {
            rest.push(Seq::<u8>::empty())
        } else {
            rest.update(rest.len() - 1, rest.last().push(bytes.last()))
        }
    }
}

/// One segment with a trailing carriage return (of a CRLF line break)
/// removed.
pub open spec fn strip_cr(line: Seq<u8>) -> Seq<u8> {
    if line.len() > 0 && line.last() == CARRIAGE_RETURN {
        line.drop_last()
    } else {
        line
    }
}

/// The manifest entries a cut-up byte stream holds: each segment without its
/// line-break bytes, empty lines left out.
pub open spec fn entries_of_segs(segs: Seq<Seq<u8>>) -> Seq<Seq<u8>> {
    segs.map_values(|l: Seq<u8>| strip_cr(l)).filter(|l: Seq<u8>| l.len() > 0)
}

/// The manifest entries of a decompressed manifest: one per non-empty line,
/// in input order.
pub open spec fn manifest_entries(bytes: Seq<u8>) -> Seq<Seq<u8>> {
    entries_of_segs(split_segments(bytes))
}

/// Every entry of the manifest is valid UTF-8, so every entry can be turned
/// into a locator.
pub open spec fn manifest_text_ok(bytes: Seq<u8>) -> bool {
    let es = manifest_entries(bytes);
    forall|i: int| 0 <= i < es.len() ==> vstd::utf8::valid_utf8(#[trigger] es[i])
}

/// The absolute address of one remote object, with its ordinal position in
/// the manifest.
#[derive(Debug)]
pub struct Locator {
    pub index: usize,
    pub url: String,
}

/// `locs` are exactly the locators of the entry list `es`: one per entry, in
/// order, each the origin followed by the decoded entry.
pub open spec fn locators_match_entries(es: Seq<Seq<u8>>, locs: Seq<Locator>) -> bool {
    &&& locs.len() == es.len()
    &&& forall|i: int|
        0 <= i < es.len() ==> (#[trigger] locs[i]).index == i && locs[i].url@ == origin()
            + vstd::utf8::decode_utf8(es[i])
}

/// `locs` are exactly the locators of the decompressed manifest `bytes`.
pub open spec fn manifest_locators_match(bytes: Seq<u8>, locs: Seq<Locator>) -> bool {
    locators_match_entries(manifest_entries(bytes), locs)
}

/// What gzip decompression of a well-formed stream yields.
pub uninterp spec fn gunzip_of(data: Seq<u8>) -> Seq<u8>;

/// Whether the decoder accepts the stream: the header parses, the deflate
/// stream inflates to the end, and the checksum holds.
pub uninterp spec fn gunzip_ok(data: Seq<u8>) -> bool;

/// Relies on `flate2::read::GzDecoder`: whether a gzip stream decompresses,
/// and to what, are functions of the bytes alone; a malformed or truncated
/// stream reads to an error.
#[verifier::external_body]
fn gunzip(data: &Vec<u8>) -> (r: Option<Vec<u8>>)
    ensures
        r is Some <==> gunzip_ok(data@),
        r matches Some(v) ==> v@ == gunzip_of(data@),
{
    let mut decoder = flate2::read::GzDecoder::new(&data[..]);
    let mut out: Vec<u8> = Vec::new();
    match std::io::Read::read_to_end(&mut decoder, &mut out) {
        Ok(_) => Some(out),
        Err(_) => None,
    }
}

/// Relies on `String::from_utf8`: it succeeds exactly on valid UTF-8 and
/// decodes it.
#[verifier::external_body]
fn utf8_string(bytes: &Vec<u8>) -> (r: Option<String>)
    ensures
        r matches Some(s) ==> vstd::utf8::valid_utf8(bytes@) && s@ == vstd::utf8::decode_utf8(
            bytes@,
        ),
        r is None ==> !vstd::utf8::valid_utf8(bytes@),
{
    String::from_utf8(bytes.clone()).ok()
}

/// Decompresses the manifest. Succeeds exactly when the decoder accepts the
/// stream; one it cannot finish is fatal to the run: no locators can be
/// trusted from it.
pub fn decompress_manifest(gz: &Vec<u8>) -> (r: Result<Vec<u8>, DownloadError>)
    ensures
        r is Ok <==> gunzip_ok(gz@),
        r matches Ok(v) ==> v@ == gunzip_of(gz@),
        r matches Err(e) ==> e is ManifestDecode,
{
    match gunzip(gz) {
        Some(v) => Ok(v),
        None => Err(
            DownloadError::ManifestDecode(
                "the compressed manifest is malformed or truncated".to_owned(),
            ),
        ),
    }
}

/// Cuts a decompressed manifest into its entries: one per non-empty line, in
/// input order, line breaks removed.
pub fn split_entries(bytes: &Vec<u8>) -> (r: Vec<Vec<u8>>)
    ensures
        r@.len() == manifest_entries(bytes@).len(),
        forall|i: int| 0 <= i < r@.len() ==> (#[trigger] r@[i])@ == manifest_entries(bytes@)[i],
{
    let ghost whole = bytes@;
    let mut done: Vec<Vec<u8>> = Vec::new();
    let mut cur: Vec<u8> = Vec::new();
    let mut i: usize = 0;
    proof {
        assert(whole.take(0) =~= Seq::<u8>::empty());
    }
    while i < bytes.len()
        invariant
            whole == bytes@,
            0 <= i <= whole.len(),
            split_segments(whole.take(i as int)).len() >= 1,
            cur@ == split_segments(whole.take(i as int)).last(),
            done@.map_values(|v: Vec<u8>| v@) == entries_of_segs(
                split_segments(whole.take(i as int)).drop_last(),
            ),
        decreases whole.len() - i,
    {
        let ghost prefix = whole.take(i as int);
        let ghost segs = split_segments(prefix);
        let b = bytes[i];
        proof {
            assert(whole.take(i + 1).drop_last() =~= prefix);
            assert(whole.take(i + 1).last() == b);
        }
        let ghost nsegs = split_segments(whole.take(i + 1));
        if b == LINE_FEED {
            proof {
                assert(nsegs == segs.push(Seq::<u8>::empty()));
                assert(nsegs.drop_last() =~= segs);
            }
            let mut entry = cur;
            cur = Vec::new();
            if entry.len() > 0 && entry[entry.len() - 1] == CARRIAGE_RETURN {
                entry.pop();
            }
            proof {
                assert(entry@ == strip_cr(segs.last()));
                assert(segs.drop_last().push(segs.last()) =~= segs);
                assert(segs.map_values(|l: Seq<u8>| strip_cr(l)) =~= segs.drop_last().map_values(
                    |l: Seq<u8>| strip_cr(l),
                ).push(strip_cr(segs.last())));
                segs.drop_last().map_values(|l: Seq<u8>| strip_cr(l)).lemma_filter_push(
                    strip_cr(segs.last()),
                    |l: Seq<u8>| l.len() > 0,
                );
            }
            if entry.len() > 0 {
                done.push(entry);
                proof {
                    assert(done@.map_values(|v: Vec<u8>| v@) =~= entries_of_segs(
                        nsegs.drop_last(),
                    ));
                }
            } else {
                proof {
                    assert(done@.map_values(|v: Vec<u8>| v@) =~= entries_of_segs(
                        nsegs.drop_last(),
                    ));
                }
            }
        } else {
            cur.push(b);
            proof {
                assert(nsegs == segs.update(segs.len() - 1, segs.last().push(b)));
                assert(nsegs.drop_last() =~= segs.drop_last());
                assert(nsegs.last() == segs.last().push(b));
            }
        }
        i = i + 1;
    }
    proof {
        assert(whole.take(whole.len() as int) =~= whole);
    }
    let ghost segs = split_segments(whole);
    let mut entry = cur;
    if entry.len() > 0 && entry[entry.len() - 1] == CARRIAGE_RETURN {
        entry.pop();
    }
    proof {
        assert(entry@ == strip_cr(segs.last()));
        assert(segs.drop_last().push(segs.last()) =~= segs);
        assert(segs.map_values(|l: Seq<u8>| strip_cr(l)) =~= segs.drop_last().map_values(
            |l: Seq<u8>| strip_cr(l),
        ).push(strip_cr(segs.last())));
        segs.drop_last().map_values(|l: Seq<u8>| strip_cr(l)).lemma_filter_push(
            strip_cr(segs.last()),
            |l: Seq<u8>| l.len() > 0,
        );
    }
    if entry.len() > 0 {
        done.push(entry);
    }
    proof {
        assert(done@.map_values(|v: Vec<u8>| v@) =~= manifest_entries(whole));
        assert(forall|k: int|
            0 <= k < done@.len() ==> (#[trigger] done@[k])@ == done@.map_values(
                |v: Vec<u8>| v@,
            )[k]);
    }
    done
}

/// Turns the entry list into locators: the origin followed by the decoded
/// entry, each keeping its ordinal. An entry that is not valid UTF-8 is fatal
/// to the run.
pub fn locators_from_entries(entries: &Vec<Vec<u8>>) -> (r: Result<Vec<Locator>, DownloadError>)
    ensures
        r matches Ok(locs) ==> locators_match_entries(
            entries@.map_values(|v: Vec<u8>| v@),
            locs@,
        ),
        r is Ok <==> (forall|i: int|
            0 <= i < entries@.len() ==> vstd::utf8::valid_utf8((#[trigger] entries@[i])@)),
        r matches Err(e) ==> e is ManifestDecode,
{
    let mut locs: Vec<Locator> = Vec::new();
    let mut i: usize = 0;
    while i < entries.len()
        invariant
            0 <= i <= entries@.len(),
            locs@.len() == i,
            forall|k: int| 0 <= k < i ==> vstd::utf8::valid_utf8((#[trigger] entries@[k])@),
            forall|k: int|
                0 <= k < i ==> (#[trigger] locs@[k]).index == k && locs@[k].url@ == origin()
                    + vstd::utf8::decode_utf8(entries@[k]@),
        decreases entries@.len() - i,
    {
        match utf8_string(&entries[i]) {
            Some(s) => {
                let mut url = origin_string();
                url.append(s.as_str());
                locs.push(Locator { index: i, url });
            },
            None => {
                return Err(
                    DownloadError::ManifestDecode(
                        "a manifest entry is not valid text".to_owned(),
                    ),
                );
            },
        }
        i = i + 1;
    }
    Ok(locs)
}

/// Cuts a decompressed manifest into locators. Succeeds exactly when every
/// entry is valid UTF-8, and then yields one locator per non-empty line, in
/// input order, each the origin followed by the entry.
pub fn parse_manifest(bytes: &Vec<u8>) -> (r: Result<Vec<Locator>, DownloadError>)
    ensures
        r matches Ok(locs) ==> manifest_locators_match(bytes@, locs@),
        r is Ok <==> manifest_text_ok(bytes@),
        r matches Err(e) ==> e is ManifestDecode,
{
    let entries = split_entries(bytes);
    let ghost es = manifest_entries(bytes@);
    proof {
        assert(entries@.map_values(|v: Vec<u8>| v@) =~= es);
        assert(forall|i: int|
            0 <= i < entries@.len() ==> (#[trigger] entries@[i])@ == entries@.map_values(
                |v: Vec<u8>| v@,
            )[i]);
    }
    locators_from_entries(&entries)
}

/// Decompresses and cuts a compressed manifest in one step. Succeeds exactly
/// when the decoder accepts the stream and every entry of it is valid UTF-8,
/// and then yields the locators of the decompressed stream; anything else is
/// fatal to the run.
pub fn read_manifest(gz: &Vec<u8>) -> (r: Result<Vec<Locator>, DownloadError>)
    ensures
        r is Ok <==> (gunzip_ok(gz@) && manifest_text_ok(gunzip_of(gz@))),
        r matches Ok(locs) ==> manifest_locators_match(gunzip_of(gz@), locs@),
        r matches Err(e) ==> e is ManifestDecode,
{
    let bytes = decompress_manifest(gz)?;
    parse_manifest(&bytes)
}

/// The locator of the manifest itself for one snapshot and data type:
/// `origin + "crawl-data/" + snapshot + "/" + type + ".paths.gz"`.
pub fn manifest_url(snapshot: &str, data_type: DataType) -> (r: String)
    ensures
        r@ == origin() + "crawl-data/"@ + snapshot@ + "/"@ + data_type.text() + ".paths.gz"@,
{
    let mut r = origin_string();
    r.append("crawl-data/");
    r.append(snapshot);
    r.append("/");
    r.append(data_type.as_str());
    r.append(".paths.gz");
    r
}

} // verus!
