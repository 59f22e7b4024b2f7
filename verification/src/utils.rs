//! Small rules shared by the pages: the site's own address, smilies, empty
//! form fields, the site's title.

use crate::model::Site;
use crate::site_fairing::SiteData;
use crate::text::{concat, is_blank, replace, replace_all, str_is_blank};
use vstd::prelude::*;

verus! {

/// The address of a site from the scheme and the domain of its own address.
pub open spec fn origin(scheme: Seq<char>, domain: Seq<char>) -> Seq<char> {
    scheme + "://"@ + domain
}

/// The site's own address, without a path: scheme and domain. The site's
/// address names a domain.
pub fn base_url(site_data: &SiteData) -> (url: String)
    requires
        site_data.site.actor_domain is Some,
    ensures
        url@ == origin(site_data.site.actor_scheme@, site_data.site.actor_domain->0@),
{
    let scheme = concat(site_data.site.actor_scheme.as_str(), "://");
    match &site_data.site.actor_domain {
        Some(domain) => concat(scheme.as_str(), domain.as_str()),
        None => scheme,
    }
}

/// The smilies that a text may hold, each with the file of its picture, in
/// the order in which they are looked for.
pub open spec fn smilies() -> Seq<(Seq<char>, Seq<char>)> {
    seq![
        (":D"@, "icon_e_biggrin.gif"@),
        (":)"@, "icon_e_smile.gif"@),
        (";)"@, "icon_e_wink.gif"@),
        (":("@, "icon_e_sad.gif"@),
        (":oops:"@, "icon_redface.gif"@),
        (":o"@, "icon_e_surprised.gif"@),
        (":shock:"@, "icon_eek.gif"@),
        (":?"@, "icon_e_confused.gif"@),
        ("8-)"@, "icon_cool.gif"@),
        (":lol:"@, "icon_lol.gif"@),
        (":x"@, "icon_mad.gif"@),
        (":P"@, "icon_razz.gif"@),
        (":cry:"@, "icon_cry.gif"@),
        (":evil:"@, "icon_evil.gif"@),
        (":twisted:"@, "icon_twisted.gif"@),
        (":roll:"@, "icon_rolleyes.gif"@),
        (":!:"@, "icon_exclaim.gif"@),
        (":?:"@, "icon_question.gif"@),
        (":idea:"@, "icon_idea.gif"@),
        (":arrow:"@, "icon_arrow.gif"@),
        (":|"@, "icon_neutral.gif"@),
        (":mrgreen:"@, "icon_mrgreen.gif"@),
        (":geek:"@, "icon_e_geek.gif"@),
        (":ugeek:"@, "icon_e_ugeek.gif"@),
    ]
}

/// The markdown that shows the picture in `file`, on a site whose address
/// is still to be filled in.
pub open spec fn smiley_picture(file: Seq<char>) -> Seq<char> {
    "![]($DOMAIN/assets/images/smilies/"@ + file + ")"@
}

/// `text` after the first `count` smilies have been replaced by their
/// pictures, one kind after the other.
pub open spec fn with_pictures(text: Seq<char>, count: nat) -> Seq<char>
    decreases count,
{
    if count == 0 {
        text
    } else {
        replace_all(
            with_pictures(text, (count - 1) as nat),
            smilies()[count - 1].0,
            smiley_picture(smilies()[count - 1].1),
        )
    }
}

/// `text` with every smiley replaced by the markdown of its picture on the
/// site at `base_url`.
pub open spec fn with_smilies(text: Seq<char>, base_url: Seq<char>) -> Seq<char> {
    replace_all(with_pictures(text, smilies().len()), "$DOMAIN"@, base_url)
}

fn smiley_table() -> (table: Vec<(&'static str, &'static str)>)
    ensures
        table@.len() == smilies().len(),
        forall|i: int|
            0 <= i < table@.len() ==> (#[trigger] table@[i]).0@ == smilies()[i].0 && table@[i].1@
                == smilies()[i].1,
{
    let mut table: Vec<(&'static str, &'static str)> = Vec::new();
    table.push((":D", "icon_e_biggrin.gif"));
    table.push((":)", "icon_e_smile.gif"));
    table.push((";)", "icon_e_wink.gif"));
    table.push((":(", "icon_e_sad.gif"));
    table.push((":oops:", "icon_redface.gif"));
    table.push((":o", "icon_e_surprised.gif"));
    table.push((":shock:", "icon_eek.gif"));
    table.push((":?", "icon_e_confused.gif"));
    table.push(("8-)", "icon_cool.gif"));
    table.push((":lol:", "icon_lol.gif"));
    table.push((":x", "icon_mad.gif"));
    table.push((":P", "icon_razz.gif"));
    table.push((":cry:", "icon_cry.gif"));
    table.push((":evil:", "icon_evil.gif"));
    table.push((":twisted:", "icon_twisted.gif"));
    table.push((":roll:", "icon_rolleyes.gif"));
    table.push((":!:", "icon_exclaim.gif"));
    table.push((":?:", "icon_question.gif"));
    table.push((":idea:", "icon_idea.gif"));
    table.push((":arrow:", "icon_arrow.gif"));
    table.push((":|", "icon_neutral.gif"));
    table.push((":mrgreen:", "icon_mrgreen.gif"));
    table.push((":geek:", "icon_e_geek.gif"));
    table.push((":ugeek:", "icon_e_ugeek.gif"));
    table
}

/// Replaces the smilies in `text` by the markdown of their pictures, which
/// lie on the site itself.
pub fn replace_smilies(text: &str, site_data: &SiteData) -> (out: String)
    requires
        site_data.site.actor_domain is Some,
    ensures
        out@ == with_smilies(
            text@,
            origin(site_data.site.actor_scheme@, site_data.site.actor_domain->0@),
        ),
{
    let base_url = base_url(site_data);
    let table = smiley_table();
    let mut out = text.to_owned();
    let mut i: usize = 0;
    while i < table.len()
        invariant
            i <= table@.len(),
            table@.len() == smilies().len(),
            forall|k: int|
                0 <= k < table@.len() ==> (#[trigger] table@[k]).0@ == smilies()[k].0
                    && table@[k].1@ == smilies()[k].1,
            out@ == with_pictures(text@, i as nat),
        decreases table.len() - i,
    {
        let (smiley, file) = table[i];
        let picture = concat("![]($DOMAIN/assets/images/smilies/", file);
        let picture = concat(picture.as_str(), ")");
        out = replace(out.as_str(), smiley, picture.as_str());
        i += 1;
    }
    replace(out.as_str(), "$DOMAIN", base_url.as_str())
}

/// Turns a form field that holds nothing but white space into no value.
pub fn empty_to_opt(value: String) -> (field: Option<String>)
    ensures
        field == if is_blank(value@) {
            None
        } else {
            Some(value)
        },
{
    if str_is_blank(value.as_str()) {
        None
    } else {
        Some(value)
    }
}

/// The title of the site: its name, followed by its description where it
/// has one.
pub open spec fn site_title(site: Site) -> Seq<char> {
    match site.description {
        Some(description) => site.name@ + " - "@ + description@,
        None => site.name@,
    }
}

/// Builds the title of the site.
pub fn main_site_title(site: &Site) -> (title: String)
    ensures
        title@ == site_title(*site),
{
    match &site.description {
        Some(description) => {
            let name = concat(site.name.as_str(), " - ");
            concat(name.as_str(), description.as_str())
        },
        None => site.name.clone(),
    }
}

} // verus!
