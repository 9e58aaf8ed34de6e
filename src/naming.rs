use vstd::prelude::*;
use vstd::string::*;

verus! {

/// The ten decimal digits in order.
pub open spec fn digits() -> Seq<char> {
    seq!['0', '1', '2', '3', '4', '5', '6', '7', '8', '9']
}

/// Decimal notation of `n`, without leading zeros.
pub open spec fn dec_of(n: nat) -> Seq<char>
    decreases n,
{
    if n < 10 {
        seq![digits()[n as int]]
    } else {
        dec_of(n / 10) + seq![digits()[(n % 10) as int]]
    }
}

/// Writes `n` in decimal.
pub fn decimal(n: u32) -> (r: String)
    ensures
        r@ == dec_of(n as nat),
    decreases n,
{
    let lit = "0123456789";
    proof {
        reveal_strlit("0123456789");
        assert(lit@ =~= digits());
    }
    if n < 10 {
        let d = n as usize;
        let one = lit.substring_char(d, d + 1);
        assert(one@ =~= seq![digits()[n as int]]);
        String::from_str(one)
    } else {
        let mut s = decimal(n / 10);
        let d = (n % 10) as usize;
        let one = lit.substring_char(d, d + 1);
        assert(one@ =~= seq![digits()[(n % 10) as int]]);
        s.append(one);
        s
    }
}

} // verus!

verus! {

/// `i_{id}` for a standalone artwork, `u_{author}/i_{id}` under an author.
pub open spec fn artwork_dir_of(id: Seq<char>, author: Option<Seq<char>>) -> Seq<char> {
    match author {
        Some(a) => "u_"@ + a + "/i_"@ + id,
        None => "i_"@ + id,
    }
}

/// `{base}/{id}_p{page}.{ext}`: where a page is fetched from.
pub open spec fn page_url_of(base: Seq<char>, id: Seq<char>, page: nat, ext: Seq<char>) -> Seq<char> {
    base + "/"@ + id + "_p"@ + dec_of(page) + "."@ + ext
}

/// `{dir}/p{page}.{ext}`: where a page is saved.
pub open spec fn page_path_of(dir: Seq<char>, page: nat, ext: Seq<char>) -> Seq<char> {
    dir + "/p"@ + dec_of(page) + "."@ + ext
}

/// `{dir}/thumbnail.{ext}`: where an animated artwork's still image is saved.
pub open spec fn thumbnail_path_of(dir: Seq<char>, ext: Seq<char>) -> Seq<char> {
    dir + "/thumbnail."@ + ext
}

/// `{dir}/{id}_ugoira1920x1080.zip`: where an animated artwork's archive is saved.
pub open spec fn archive_path_of(dir: Seq<char>, id: Seq<char>) -> Seq<char> {
    dir + "/"@ + id + "_ugoira1920x1080.zip"@
}

/// The directory that receives an artwork's files.
pub fn artwork_dir(illust_id: &str, author: &Option<String>) -> (r: String)
    ensures
        r@ == artwork_dir_of(
            illust_id@,
            match author {
                Some(a) => Some(a@),
                None => None,
            },
        ),
{
    match author {
        Some(a) => {
            let mut s = String::from_str("u_");
            s.append(a.as_str());
            s.append("/i_");
            s.append(illust_id);
            s
        },
        None => {
            let mut s = String::from_str("i_");
            s.append(illust_id);
            s
        },
    }
}

/// The URL of one page of a multi-page artwork.
pub fn page_url(base: &str, illust_id: &str, page: u32, ext: &str) -> (r: String)
    ensures
        r@ == page_url_of(base@, illust_id@, page as nat, ext@),
{
    let mut s = String::from_str(base);
    s.append("/");
    s.append(illust_id);
    s.append("_p");
    let d = decimal(page);
    s.append(d.as_str());
    s.append(".");
    s.append(ext);
    s
}

/// The local path of one page of a multi-page artwork.
pub fn page_path(dir: &str, page: u32, ext: &str) -> (r: String)
    ensures
        r@ == page_path_of(dir@, page as nat, ext@),
{
    let mut s = String::from_str(dir);
    s.append("/p");
    let d = decimal(page);
    s.append(d.as_str());
    s.append(".");
    s.append(ext);
    s
}

/// The local path of an animated artwork's still image.
pub fn thumbnail_path(dir: &str, ext: &str) -> (r: String)
    ensures
        r@ == thumbnail_path_of(dir@, ext@),
{
    let mut s = String::from_str(dir);
    s.append("/thumbnail.");
    s.append(ext);
    s
}

/// The local path of an animated artwork's frame archive.
pub fn archive_path(dir: &str, illust_id: &str) -> (r: String)
    ensures
        r@ == archive_path_of(dir@, illust_id@),
{
    let mut s = String::from_str(dir);
    s.append("/");
    s.append(illust_id);
    s.append("_ugoira1920x1080.zip");
    s
}

} // verus!
