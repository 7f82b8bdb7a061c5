//! The file names that downloaded wallpapers are saved under.

use vstd::prelude::*;
use vstd::string::*;
use super::data::RedditData;
use crate::text::same_text;

verus! {

/// The name of the format (as the image library prints it) that `image::ImageFormat::from_path`
/// finds for `path`, or none where it fails.
pub uninterp spec fn path_image_format(path: Seq<char>) -> Option<Seq<char>>;

/// `image::ImageFormat::from_path`, with the format it finds given by the name the library prints
/// for it (its derived `Debug`, such as `Png` or `Jpeg`). The result is named by
/// `path_image_format`; which extensions name which format, and how the extension is found in
/// the path, is left to the library.
#[verifier::external_body]
fn image_format_from_path(path: &str) -> (res: Option<String>)
    ensures
        res matches Some(name) ==> path_image_format(path@) == Some(name@),
        res is None ==> path_image_format(path@) is None,
{
    image::ImageFormat::from_path(path).ok().map(|f| format!("{:?}", f))
}

/// Why no file name could be made for a wallpaper.
#[derive(Debug)]
pub enum FileNameError {
    /// The address names a format other than PNG or JPEG; its name is given here.
    Unsupported(String),
    /// No format could be found from the address, given here.
    Undetermined(String),
}

/// The text of a file-name error.
pub open spec fn error_message(e: FileNameError) -> Seq<char> {
    match e {
        FileNameError::Unsupported(name) => "Not supported file extension: "@ + name@ + ")"@,
        FileNameError::Undetermined(url) => "File extension not determined for url: "@ + url@,
    }
}

impl FileNameError {
    /// The text of the error.
    pub fn message(&self) -> (m: String)
        ensures
            m@ == error_message(*self),
    {
        match self {
            FileNameError::Unsupported(name) => {
                let mut m = "Not supported file extension: ".to_owned();
                m.append(name.as_str());
                m.append(")");
                m
            },
            FileNameError::Undetermined(url) => {
                let mut m = "File extension not determined for url: ".to_owned();
                m.append(url.as_str());
                m
            },
        }
    }
}

/// The outcome for a wallpaper with address `url` and id `id`, whose address names `format`:
/// `wallpapers-<id>.png` for PNG, `wallpapers-<id>.jpg` for JPEG, and an error otherwise.
pub open spec fn file_name_outcome(
    url: Seq<char>,
    id: Seq<char>,
    format: Option<Seq<char>>,
    res: Result<String, FileNameError>,
) -> bool {
    match format {
        Some(name) => if name == "Png"@ {
            res matches Ok(n) && n@ == "wallpapers-"@ + id + ".png"@
        } else if name == "Jpeg"@ {
            res matches Ok(n) && n@ == "wallpapers-"@ + id + ".jpg"@
        } else {
            res matches Err(FileNameError::Unsupported(f)) && f@ == name
        },
        None => res matches Err(FileNameError::Undetermined(u)) && u@ == url,
    }
}

/// Only PNG and JPEG addresses get a file name; any other format is refused by its name, and an
/// address without a known format is refused with the address itself.
pub proof fn law_file_name_errors(
    url: Seq<char>,
    id: Seq<char>,
    format: Option<Seq<char>>,
    res: Result<String, FileNameError>,
)
    requires
        file_name_outcome(url, id, format, res),
    ensures
        res is Ok <==> (format == Some("Png"@) || format == Some("Jpeg"@)),
        format is Some && format->0 != "Png"@ && format->0 != "Jpeg"@ ==> (res matches Err(
            FileNameError::Unsupported(name),
        ) && name@ == format->0 && error_message(FileNameError::Unsupported(name))
            == "Not supported file extension: "@ + format->0 + ")"@),
        format is None ==> (res matches Err(FileNameError::Undetermined(u)) && u@ == url
            && error_message(FileNameError::Undetermined(u)) == "File extension not determined for url: "@
            + url),
{
}

/// A PNG or JPEG wallpaper is saved under `wallpapers-`, then its whole id, then `.png` or
/// `.jpg`: stripping the 11-character prefix and the 4-character extension gives the id back,
/// whatever its length.
pub proof fn law_file_name_holds_whole_id(
    url: Seq<char>,
    id: Seq<char>,
    format: Option<Seq<char>>,
    res: Result<String, FileNameError>,
)
    requires
        file_name_outcome(url, id, format, res),
        format == Some("Png"@) || format == Some("Jpeg"@),
    ensures
        res matches Ok(n) && n@.len() == 11 + id.len() + 4 && n@.take(11) == seq![
            'w',
            'a',
            'l',
            'l',
            'p',
            'a',
            'p',
            'e',
            'r',
            's',
            '-',
        ] && n@.subrange(11, 11 + id.len() as int) == id && n@.skip(11 + id.len() as int) == (if format == Some(
            "Png"@,
        ) {
            seq!['.', 'p', 'n', 'g']
        } else {
            seq!['.', 'j', 'p', 'g']
        }),
{
    reveal_strlit("Png");
    reveal_strlit("Jpeg");
    reveal_strlit("wallpapers-");
    reveal_strlit(".png");
    reveal_strlit(".jpg");
    let n = res->Ok_0;
    assert(n@.take(11) =~= "wallpapers-"@);
    assert(n@.subrange(11, 11 + id.len() as int) =~= id);
    if format == Some("Png"@) {
        assert(n@.skip(11 + id.len() as int) =~= ".png"@);
    } else {
        assert(n@.skip(11 + id.len() as int) =~= ".jpg"@);
    }
}

/// Wallpapers with different ids in the same format are saved under different names, so one
/// never takes the place of another.
pub proof fn law_distinct_ids_distinct_files(
    url1: Seq<char>,
    id1: Seq<char>,
    url2: Seq<char>,
    id2: Seq<char>,
    format: Option<Seq<char>>,
    res1: Result<String, FileNameError>,
    res2: Result<String, FileNameError>,
)
    requires
        file_name_outcome(url1, id1, format, res1),
        file_name_outcome(url2, id2, format, res2),
        format == Some("Png"@) || format == Some("Jpeg"@),
        id1 != id2,
    ensures
        res1 matches Ok(n1) && res2 matches Ok(n2) && n1@ != n2@,
{
    law_file_name_holds_whole_id(url1, id1, format, res1);
    law_file_name_holds_whole_id(url2, id2, format, res2);
    let n1 = res1->Ok_0;
    let n2 = res2->Ok_0;
    if n1@ == n2@ {
        assert(id1.len() == id2.len());
        assert(id1 == n1@.subrange(11, 11 + id1.len() as int));
    }
}

/// The file name for a wallpaper, given the name of the format its address names.
pub fn file_name_for_format(url: &str, id: &str, format: Option<&str>) -> (res: Result<
    String,
    FileNameError,
>)
    ensures
        file_name_outcome(
            url@,
            id@,
            match format {
                Some(f) => Some(f@),
                None => None,
            },
            res,
        ),
{
    match format {
        Some(name) => {
            if same_text(name, "Png") {
                let mut n = "wallpapers-".to_owned();
                n.append(id);
                n.append(".png");
                Ok(n)
            } else if same_text(name, "Jpeg") {
                let mut n = "wallpapers-".to_owned();
                n.append(id);
                n.append(".jpg");
                Ok(n)
            } else {
                Err(FileNameError::Unsupported(name.to_owned()))
            }
        },
        None => Err(FileNameError::Undetermined(url.to_owned())),
    }
}

/// The file name for a wallpaper, from the format the image library finds in its address.
pub fn get_file_name(url: &str, id: &str) -> (res: Result<String, FileNameError>)
    ensures
        file_name_outcome(url@, id@, path_image_format(url@), res),
{
    let format = image_format_from_path(url);
    match &format {
        Some(name) => file_name_for_format(url, id, Some(name.as_str())),
        None => file_name_for_format(url, id, None),
    }
}

/// A wallpaper of the listing together with the file it is to be saved as.
pub struct PlannedWallpaper {
    pub id: String,
    pub url: String,
    pub file_name: Result<String, FileNameError>,
}

/// For each wallpaper of the listing, in order, its id, its address, and the outcome of naming
/// its file.
pub fn plan_wallpapers(data: &RedditData) -> (plans: Vec<PlannedWallpaper>)
    ensures
        plans@.len() == data.data.children@.len(),
        forall|i: int|
            #![trigger plans@[i]]
            0 <= i < plans@.len() ==> {
                let w = data.data.children@[i].data;
                &&& plans@[i].id@ == w.id@
                &&& plans@[i].url@ == w.url@
                &&& file_name_outcome(w.url@, w.id@, path_image_format(w.url@), plans@[i].file_name)
            },
{
    let children = &data.data.children;
    let mut plans: Vec<PlannedWallpaper> = Vec::new();
    let mut i: usize = 0;
    while i < children.len()
        invariant
            i <= children@.len(),
            children == &data.data.children,
            plans@.len() == i,
            forall|j: int|
                #![trigger plans@[j]]
                0 <= j < i ==> {
                    let w = children@[j].data;
                    &&& plans@[j].id@ == w.id@
                    &&& plans@[j].url@ == w.url@
                    &&& file_name_outcome(w.url@, w.id@, path_image_format(w.url@), plans@[j].file_name)
                },
        decreases children.len() - i,
    {
        let w = &children[i].data;
        let file_name = get_file_name(w.url.as_str(), w.id.as_str());
        plans.push(PlannedWallpaper { id: w.id.clone(), url: w.url.clone(), file_name });
        i = i + 1;
    }
    plans
}

} // verus!
