//! The deployment cache's items, projected from a drive's file listing or
//! imported from a list of metadata links.
use crate::records::ArDriveFile;
use crate::text::{chars_of, push_char, texts, trim, trim_chars};
use vstd::prelude::*;

verus! {

/// One entry of the deployment cache.
#[derive(Debug, Clone, PartialEq, Eq)]
pub struct CacheItem {
    pub name: String,
    pub image_hash: String,
    pub image_link: String,
    pub metadata_hash: String,
    pub metadata_link: String,
    pub on_chain: bool,
    pub animation_hash: Option<String>,
    pub animation_link: Option<String>,
}

/// The retrieval URL of a transaction on the gateway.
pub open spec fn arweave_url(tx_id: Seq<char>) -> Seq<char> {
    "https://arweave.net/"@ + tx_id
}

/// The character of a decimal digit.
pub open spec fn digit_char(d: nat) -> char {
    if d == 0 {
        '0'
    } else if d == 1 {
        '1'
    } else if d == 2 {
        '2'
    } else if d == 3 {
        '3'
    } else if d == 4 {
        '4'
    } else if d == 5 {
        '5'
    } else if d == 6 {
        '6'
    } else if d == 7 {
        '7'
    } else if d == 8 {
        '8'
    } else {
        '9'
    }
}

/// `n` written in decimal, without leading zeros.
pub open spec fn decimal(n: nat) -> Seq<char>
    decreases n,
{
    if n < 10 {
        seq![digit_char(n)]
    } else {
        decimal(n / 10).push(digit_char(n % 10))
    }
}

/// The text of an optional string, empty where there is none.
pub open spec fn or_empty(o: Option<String>) -> Seq<char> {
    match o {
        Some(s) => s@,
        None => Seq::empty(),
    }
}

/// The link to a transaction, empty where there is no transaction.
pub open spec fn link_for(tx_id: Seq<char>) -> Seq<char> {
    if tx_id.len() > 0 {
        arweave_url(tx_id)
    } else {
        Seq::empty()
    }
}

/// Whether `(key, item)` is the cache entry for file `f` at position `i`.
pub open spec fn projects_to(i: nat, f: ArDriveFile, key: String, item: CacheItem) -> bool {
    &&& key@ == decimal(i)
    &&& item.name@ == match f.name {
        Some(n) => n@,
        None => decimal(i),
    }
    &&& item.image_hash@ == or_empty(f.data_tx_id)
    &&& item.image_link@ == link_for(or_empty(f.data_tx_id))
    &&& item.metadata_hash@ == or_empty(f.metadata_tx_id)
    &&& item.metadata_link@ == link_for(or_empty(f.metadata_tx_id))
    &&& !item.on_chain
    &&& item.animation_hash is None
    &&& item.animation_link is None
}

/// Whether `items` is the projection of `files`, position by position.
pub open spec fn projection_of(files: Seq<ArDriveFile>, items: Seq<(String, CacheItem)>) -> bool {
    &&& items.len() == files.len()
    &&& forall|i: int|
        0 <= i < files.len() ==> projects_to(i as nat, #[trigger] files[i], items[i].0, items[i].1)
}

/// The character of decimal digit `d`.
fn digit(d: usize) -> (r: char)
    requires
        d < 10,
    ensures
        r == digit_char(d as nat),
{
    if d == 0 {
        '0'
    } else if d == 1 {
        '1'
    } else if d == 2 {
        '2'
    } else if d == 3 {
        '3'
    } else if d == 4 {
        '4'
    } else if d == 5 {
        '5'
    } else if d == 6 {
        '6'
    } else if d == 7 {
        '7'
    } else if d == 8 {
        '8'
    } else {
        '9'
    }
}

/// `n` written in decimal.
pub fn decimal_string(n: usize) -> (r: String)
    ensures
        r@ == decimal(n as nat),
    decreases n,
{
    if n < 10 {
        let mut r = String::new();
        push_char(&mut r, digit(n));
        proof { assert(r@ =~= decimal(n as nat)); }
        r
    } else {
        let mut r = decimal_string(n / 10);
        push_char(&mut r, digit(n % 10));
        r
    }
}

/// The retrieval URL of transaction `tx_id`.
pub fn get_arweave_url(tx_id: &str) -> (r: String)
    ensures
        r@ == arweave_url(tx_id@),
{
    let mut r = "https://arweave.net/".to_owned();
    let tv = chars_of(tx_id);
    let ghost base = r@;
    let mut i: usize = 0;
    while i < tv.len()
        invariant
            i <= tv.len(),
            base == "https://arweave.net/"@,
            tv@ == tx_id@,
            r@ == base + tv@.take(i as int),
        decreases tv.len() - i,
    {
        push_char(&mut r, tv[i]);
        i = i + 1;
        proof { assert(r@ =~= base + tv@.take(i as int)); }
    }
    proof { assert(tv@.take(tv.len() as int) =~= tx_id@); }
    r
}

/// The link to an optional transaction and its hash, both empty where there
/// is none.
fn hash_and_link(tx_id: &Option<String>) -> (r: (String, String))
    ensures
        r.0@ == or_empty(*tx_id),
        r.1@ == link_for(or_empty(*tx_id)),
{
    match tx_id {
        Some(t) => {
            let link = if t.as_str().is_empty() {
                String::new()
            } else {
                get_arweave_url(t.as_str())
            };
            (t.clone(), link)
        },
        None => (String::new(), String::new()),
    }
}

/// The cache entries for a file listing: the file at position `i` becomes
/// the entry keyed by `i` in decimal, named after the file (or its key),
/// linking its data and metadata transactions, not yet on chain.
pub fn project_cache_items(files: &Vec<ArDriveFile>) -> (r: Vec<(String, CacheItem)>)
    ensures
        projection_of(files@, r@),
{
    let mut out: Vec<(String, CacheItem)> = Vec::new();
    let mut i: usize = 0;
    while i < files.len()
        invariant
            i <= files.len(),
            projection_of(files@.take(i as int), out@),
        decreases files.len() - i,
    {
        let f = &files[i];
        let key = decimal_string(i);
        let name = match &f.name {
            Some(n) => n.clone(),
            None => key.clone(),
        };
        let (image_hash, image_link) = hash_and_link(&f.data_tx_id);
        let (metadata_hash, metadata_link) = hash_and_link(&f.metadata_tx_id);
        let item = CacheItem {
            name,
            image_hash,
            image_link,
            metadata_hash,
            metadata_link,
            on_chain: false,
            animation_hash: None,
            animation_link: None,
        };
        out.push((key, item));
        proof {
            assert(files@.take(i + 1) =~= files@.take(i as int).push(files@[i as int]));
        }
        i = i + 1;
    }
    proof { assert(files@.take(files.len() as int) =~= files@); }
    out
}

/// The positions of the lines that hold more than white space, in order.
pub open spec fn filled_lines(ls: Seq<Seq<char>>) -> Seq<int>
    decreases ls.len(),
{
    if ls.len() == 0 {
        Seq::empty()
    } else if trim(ls.last()).len() > 0 {
        filled_lines(ls.drop_last()).push(ls.len() - 1)
    } else {
        filled_lines(ls.drop_last())
    }
}

/// Whether `(key, item)` is the imported entry for metadata link `line` at
/// position `i`: keyed by `i`, named `NFT #` and `i + 1`, linking only the
/// metadata.
pub open spec fn imports_to(i: nat, line: Seq<char>, key: String, item: CacheItem) -> bool {
    &&& key@ == decimal(i)
    &&& item.name@ == "NFT #"@ + decimal(i + 1)
    &&& item.image_hash@.len() == 0
    &&& item.image_link@.len() == 0
    &&& item.metadata_hash@.len() == 0
    &&& item.metadata_link@ == line
    &&& !item.on_chain
    &&& item.animation_hash is None
    &&& item.animation_link is None
}

/// Whether `items` is what importing `ls` yields.
pub open spec fn import_of(ls: Seq<Seq<char>>, items: Seq<(String, CacheItem)>) -> bool {
    let kept = filled_lines(ls);
    &&& items.len() == kept.len()
    &&& forall|k: int|
        0 <= k < kept.len() ==> imports_to(
            kept[k] as nat,
            ls[kept[k]],
            #[trigger] items[k].0,
            items[k].1,
        )
}

/// The cache entries for a list of metadata links, one per line that holds
/// more than white space, keyed by the line's position.
pub fn import_cache_items(lines: &Vec<String>) -> (r: Vec<(String, CacheItem)>)
    ensures
        import_of(texts(lines@), r@),
{
    let ghost ls = texts(lines@);
    let mut out: Vec<(String, CacheItem)> = Vec::new();
    let mut i: usize = 0;
    while i < lines.len()
        invariant
            i <= lines.len(),
            ls == texts(lines@),
            ls.len() == lines.len(),
            import_of(ls.take(i as int), out@),
            forall|k: int| 0 <= k < filled_lines(ls.take(i as int)).len() ==> 0 <= #[trigger] filled_lines(ls.take(i as int))[k] < i,
        decreases lines.len() - i,
    {
        proof {
            assert(ls.take(i + 1).drop_last() =~= ls.take(i as int));
            assert(ls.take(i + 1).last() == lines@[i as int]@);
        }
        let line = &lines[i];
        let t = trim_chars(&chars_of(line.as_str()));
        if t.len() > 0 {
            let key = decimal_string(i);
            let mut name = "NFT #".to_owned();
            let number = decimal_string(i + 1);
            let nv = chars_of(number.as_str());
            let ghost base = name@;
            let mut k: usize = 0;
            while k < nv.len()
                invariant
                    k <= nv.len(),
                    base == "NFT #"@,
                    nv@ == decimal((i + 1) as nat),
                    name@ == base + nv@.take(k as int),
                decreases nv.len() - k,
            {
                push_char(&mut name, nv[k]);
                k = k + 1;
                proof { assert(name@ =~= base + nv@.take(k as int)); }
            }
            proof { assert(nv@.take(nv.len() as int) =~= nv@); }
            let item = CacheItem {
                name,
                image_hash: String::new(),
                image_link: String::new(),
                metadata_hash: String::new(),
                metadata_link: line.clone(),
                on_chain: false,
                animation_hash: None,
                animation_link: None,
            };
            out.push((key, item));
        }
        i = i + 1;
    }
    proof { assert(ls.take(lines.len() as int) =~= ls); }
    out
}

} // verus!
