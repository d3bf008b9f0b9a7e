//! Artwork information

use crate::error::ApiError;
use vstd::prelude::*;
use vstd::std_specs::convert::FromSpecImpl;

verus! {

/// Artwork information
#[derive(Default, Debug, Clone, PartialEq, Eq, Hash)]
pub struct Artwork {
    /// Original image width in pixels
    pub width: u32,
    /// Original image height in pixels
    pub height: u32,
    /// Template image url
    ///
    /// DO NOT USE FOR REQUESTS:
    /// for getting the image use the [`Artwork::get_image_url`] method
    pub url: String,
    /// Text color 1 in rgb hex
    pub text_color_1: Option<HexColor>,
    /// Text color 2 in rgb hex
    pub text_color_2: Option<HexColor>,
    /// Text color 3 in rgb hex
    pub text_color_3: Option<HexColor>,
    /// Text color 4 in rgb hex
    pub text_color_4: Option<HexColor>,
}

/// Hex color
#[derive(Debug, Copy, Clone, PartialEq, Eq, PartialOrd, Ord, Hash)]
pub struct HexColor(pub u32);

impl AsRef<u32> for HexColor {
    fn as_ref(&self) -> (value: &u32)
        ensures
            *value == self.0,
    {
        &self.0
    }
}

impl From<HexColor> for u32 {
    fn from(val: HexColor) -> (value: u32) {
        val.0
    }
}

impl FromSpecImpl<HexColor> for u32 {
    open spec fn obeys_from_spec() -> bool {
        true
    }

    open spec fn from_spec(val: HexColor) -> u32 {
        val.0
    }
}

impl From<u32> for HexColor {
    fn from(value: u32) -> (color: HexColor) {
        HexColor(value)
    }
}

impl FromSpecImpl<u32> for HexColor {
    open spec fn obeys_from_spec() -> bool {
        true
    }

    open spec fn from_spec(value: u32) -> HexColor {
        HexColor(value)
    }
}

/// Artwork image formats
#[derive(Debug, Copy, Clone, PartialEq, Eq, Hash)]
pub enum ArtworkImageFormat {
    /// Png image format,
    Png,
    /// Webp image format
    Webp,
    /// Jpeg image format
    Jpeg,
}

impl ArtworkImageFormat {
    /// The ending of the image files of the format.
    pub open spec fn format_string(&self) -> Seq<char> {
        match self {
            ArtworkImageFormat::Png => "png"@,
            ArtworkImageFormat::Webp => "webp"@,
            ArtworkImageFormat::Jpeg => "jpg"@,
        }
    }

    /// Get the ending of the image files of the format
    pub fn get_format_string(&self) -> (format: &str)
        ensures
            format@ == self.format_string(),
    {
        match self {
            ArtworkImageFormat::Png => "png",
            ArtworkImageFormat::Webp => "webp",
            ArtworkImageFormat::Jpeg => "jpg",
        }
    }
}

/// Whether a tag other than a value begins at a place of a template: a block, which
/// begins with two braces, or a comment, which begins with a brace and a hash.
pub open spec fn opens_tag(template: Seq<char>, i: int) -> bool {
    template[i] == '{' && (template[i + 1] == '{' || template[i + 1] == '#')
}

/// Whether the first `count` characters of a template are text and values alone.
pub open spec fn plain_until(template: Seq<char>, count: int) -> bool {
    &&& forall|i: int| 0 <= i < count ==> #[trigger] template[i] != '\\'
    &&& forall|i: int| 0 <= i < count - 1 ==> !#[trigger] opens_tag(template, i)
}

/// Whether a template is made of text and of values in single braces alone: it holds no
/// backslash, no block and no comment. Only such a template is rendered.
pub open spec fn plain_template(template: Seq<char>) -> bool {
    plain_until(template, template.len() as int)
}

/// What a plain template renders to, once a number stands for each of two names and a
/// text for a third; no text where the template is malformed or asks for another value.
pub uninterp spec fn rendered_url(
    name: Seq<char>,
    template: Seq<char>,
    width_name: Seq<char>,
    width: u32,
    height_name: Seq<char>,
    height: u32,
    format_name: Seq<char>,
    format: Seq<char>,
) -> Option<Seq<char>>;

/// `TinyTemplate::render`, on a template that `TinyTemplate::add_template` has compiled
/// under the same name: the template is rendered with two numbers and a text under
/// their names, or the error of the two calls is handed back.
///
/// The compiler of the templates does not return on every template with an escape, a
/// comment or a block, so only plain templates are handed to it.
#[verifier::external_body]
fn render_url(
    name: &str,
    template: &str,
    width: (&str, u32),
    height: (&str, u32),
    format: (&str, &str),
) -> (rendered: Result<String, tinytemplate::error::Error>)
    requires
        plain_template(template@),
    ensures
        match rendered {
            Ok(url) => rendered_url(
                name@,
                template@,
                width.0@,
                width.1,
                height.0@,
                height.1,
                format.0@,
                format.1@,
            ) == Some(url@),
            Err(_) => rendered_url(
                name@,
                template@,
                width.0@,
                width.1,
                height.0@,
                height.1,
                format.0@,
                format.1@,
            ) is None,
        },
{
    let mut templates = tinytemplate::TinyTemplate::new();
    templates.add_template(name, template)?;
    let mut context = serde_json::Map::new();
    context.insert(width.0.to_string(), serde_json::Value::from(width.1));
    context.insert(height.0.to_string(), serde_json::Value::from(height.1));
    context.insert(format.0.to_string(), serde_json::Value::from(format.1));
    templates.render(name, &serde_json::Value::Object(context))
}

/// `tinytemplate::error::Error::GenericError`: an error of the templates with a message.
#[verifier::external_body]
fn template_error(message: &str) -> (error: tinytemplate::error::Error) {
    tinytemplate::error::Error::GenericError { msg: message.to_string() }
}

impl Artwork {
    /// The url of the image in a width, a height and a format: what the template renders
    /// to with the width for `w`, the height for `h` and the format for `f`, where the
    /// template is plain.
    pub open spec fn image(&self, width: u32, height: u32, format: Seq<char>) -> Option<Seq<char>> {
        if plain_template(self.url@) {
            rendered_url("url"@, self.url@, "w"@, width, "h"@, height, "f"@, format)
        } else {
            None
        }
    }

    /// Whether a template is made of text and of values in single braces alone.
    pub fn is_plain_template(template: &str) -> (plain: bool)
        ensures
            plain == plain_template(template@),
    {
        let mut plain = true;
        let mut previous: Option<char> = None;
        for c in it: template.chars()
            invariant
                it.seq() == template@,
                plain == plain_until(template@, it.index() as int),
                previous == (if it.index() > 0 {
                    Some(template@[it.index() - 1])
                } else {
                    None
                }),
        {
            proof {
                let i = it.index() as int;
                if plain_until(template@, i) && c != '\\' && !(i > 0 && opens_tag(
                    template@,
                    i - 1,
                )) {
                    assert(plain_until(template@, i + 1));
                }
                if !plain_until(template@, i) {
                    assert(!plain_until(template@, i + 1));
                }
                if c == '\\' {
                    assert(template@[i] == '\\');
                }
            }
            if c == '\\' {
                plain = false;
            }
            match previous {
                Some(before) => {
                    if before == '{' && (c == '{' || c == '#') {
                        plain = false;
                    }
                },
                None => {},
            }
            previous = Some(c);
        }
        plain
    }

    /// The url that was rendered, or the error of a template that could not be rendered.
    pub fn image_url(rendered: Result<String, tinytemplate::error::Error>) -> (url: Result<
        String,
        ApiError,
    >)
        ensures
            match rendered {
                Ok(text) => url == Ok::<String, ApiError>(text),
                Err(error) => url == Err::<String, ApiError>(ApiError::TinyTemplate(error)),
            },
    {
        match rendered {
            Ok(text) => Ok(text),
            Err(error) => Err(ApiError::from(error)),
        }
    }

    /// Get artwork image url
    ///
    /// A template with an escape, a comment or a block is refused as one that cannot be
    /// rendered.
    ///
    /// # Parameters
    ///
    /// * width - preferred width
    ///
    /// * height - preferred height
    ///
    /// * image_format - image format in which the image should be retrieved
    pub fn get_image_url(&self, width: u32, height: u32, image_format: ArtworkImageFormat) -> (url:
        Result<String, ApiError>)
        ensures
            match url {
                Ok(url) => self.image(width, height, image_format.format_string()) == Some(url@),
                Err(error) => {
                    &&& error is TinyTemplate
                    &&& self.image(width, height, image_format.format_string()) is None
                },
            },
    {
        if !Artwork::is_plain_template(self.url.as_str()) {
            let refused = template_error(
                "The template holds an escape, a comment or a block, which are not rendered.",
            );
            return Err(ApiError::from(refused));
        }
        let rendered = render_url(
            "url",
            self.url.as_str(),
            ("w", width),
            ("h", height),
            ("f", image_format.get_format_string()),
        );
        Artwork::image_url(rendered)
    }
}

} // verus!
