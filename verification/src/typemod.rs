use vstd::prelude::*;
use crate::text::str_eq;

verus! {

/// The media types this server labels its responses with.
#[derive(Clone, Copy, Debug)]
pub enum Type {
    TextHtml,
    TextPlain,
    ImageJpeg,
    ImagePng,
}

/// `Path::extension` of std, on a path given as text. How a path splits into
/// components depends on the platform, so only this much is claimed: a path
/// without any dot has no extension.
#[verifier::external_body]
fn path_extension(path: &str) -> (ext: Option<String>)
    ensures
        !path@.contains('.') ==> ext is None,
{
    std::path::Path::new(path).extension().and_then(|e| e.to_str()).map(|e| e.to_owned())
}

impl Type {
    /// The value of the `Content-Type` header.
    pub open spec fn text(self) -> Seq<char> {
        match self {
            Type::TextHtml => "text/html; charset=utf-8"@,
            Type::TextPlain => "text/plain"@,
            Type::ImageJpeg => "image/jpeg"@,
            Type::ImagePng => "image/png"@,
        }
    }

    /// The media type served for a file name extension; anything unknown is
    /// served as HTML.
    pub open spec fn of_extension(ext: Option<Seq<char>>) -> Type {
        match ext {
            Some(e) => if e == "txt"@ {
                Type::TextPlain
            } else if e == "jpg"@ {
                Type::ImageJpeg
            } else if e == "png"@ {
                Type::ImagePng
            } else {
                Type::TextHtml
            },
            None => Type::TextHtml,
        }
    }

    /// The media type as it stands in the `Content-Type` header.
    pub fn to_str(&self) -> (text: &'static str)
        ensures
            text@ == self.text(),
    {
        match *self {
            Type::TextHtml => "text/html; charset=utf-8",
            Type::TextPlain => "text/plain",
            Type::ImageJpeg => "image/jpeg",
            Type::ImagePng => "image/png",
        }
    }

    /// The media type for an extension that has already been taken off a path.
    pub fn from_extension(ext: Option<&str>) -> (typ: Type)
        ensures
            typ == Type::of_extension(
                match ext {
                    Some(e) => Some(e@),
                    None => None,
                },
            ),
    {
        match ext {
            Some(e) => {
                if str_eq(e, "txt") {
                    Type::TextPlain
                } else if str_eq(e, "jpg") {
                    Type::ImageJpeg
                } else if str_eq(e, "png") {
                    Type::ImagePng
                } else {
                    Type::TextHtml
                }
            },
            None => Type::TextHtml,
        }
    }

    /// The media type for a file path, chosen by the path's extension as the
    /// platform's path rules find it.
    pub fn create_from_path(path: &str) -> (typ: Type)
        ensures
            exists|ext: Option<Seq<char>>| typ == Type::of_extension(ext),
            !path@.contains('.') ==> typ == Type::TextHtml,
    {
        match path_extension(path) {
            Some(e) => Type::from_extension(Some(e.as_str())),
            None => Type::from_extension(None),
        }
    }
}

} // verus!
