//! Reading `.desktop` files through `freedesktop_desktop_entry`, and deciding
//! which of them become launcher lines.

use vstd::prelude::*;
use freedesktop_desktop_entry::{DecodeError, DesktopEntry};

verus! {

#[verifier::external_type_specification]
#[verifier::external_body]
pub struct ExDesktopEntry<'a>(DesktopEntry<'a>);

#[verifier::external_type_specification]
#[verifier::external_body]
pub struct ExDecodeError(DecodeError);

/// What `DesktopEntry::decode` makes of a file path and the file's text: `None`
/// where the path has no file stem to serve as application id; else the id, the
/// keys of the `[Desktop Entry]` group with their unlocalized values (the last
/// one written wins; `""` for a key written only in localized forms), and the
/// translation domain named by an `X-Ubuntu-Gettext-Domain` line.
pub uninterp spec fn desktop_entry_decoded(path: Seq<char>, text: Seq<char>) -> Option<
    (Seq<char>, Map<Seq<char>, Seq<char>>, Option<Seq<char>>),
>;

/// The keys of the `[Desktop Entry]` group of a decoded entry, with their
/// unlocalized values.
pub uninterp spec fn desktop_entry_keys(e: DesktopEntry) -> Map<Seq<char>, Seq<char>>;

/// The application id and the translation domain of a decoded entry.
pub uninterp spec fn desktop_entry_identity(e: DesktopEntry) -> (Seq<char>, Option<Seq<char>>);

/// The characters that `char::is_whitespace` accepts: those with the Unicode
/// property White_Space.
pub open spec fn is_white_space(c: char) -> bool {
    let n: u32 = c as u32;
    ||| 0x9 <= n <= 0xd
    ||| n == 0x20
    ||| n == 0x85
    ||| n == 0xa0
    ||| n == 0x1680
    ||| 0x2000 <= n <= 0x200a
    ||| n == 0x2028
    ||| n == 0x2029
    ||| n == 0x202f
    ||| n == 0x205f
    ||| n == 0x3000
}

/// Whether everything on the line before position `i` is white space.
pub open spec fn blank_before(text: Seq<char>, i: int) -> bool
    decreases i,
{
    if i <= 0 {
        true
    } else {
        text[i - 1] == '\n' || (is_white_space(text[i - 1]) && blank_before(text, i - 1))
    }
}

/// Whether some line, once trimmed, starts with `=`: a key with an empty name,
/// on which `DesktopEntry::decode` panics.
pub open spec fn has_nameless_key(text: Seq<char>) -> bool {
    exists|i: int| 0 <= i < text.len() && text[i] == '=' && #[trigger] blank_before(text, i)
}

/// Whether a character is white space (the test of `char::is_whitespace`).
pub fn white_space(c: char) -> (b: bool)
    ensures
        b == is_white_space(c),
{
    let n: u32 = c as u32;
    (0x9 <= n && n <= 0xd) || n == 0x20 || n == 0x85 || n == 0xa0 || n == 0x1680 || (0x2000 <= n
        && n <= 0x200a) || n == 0x2028 || n == 0x2029 || n == 0x202f || n == 0x205f || n == 0x3000
}

/// Whether the text has a line that, trimmed, starts with `=`; decoding such a
/// text panics.
pub fn nameless_key_in(text: &str) -> (b: bool)
    ensures
        b == has_nameless_key(text@),
{
    let ghost s = text@;
    let mut blank = true;
    for c in it: text.chars()
        invariant
            it.seq() == s,
            s == text@,
            blank == blank_before(s, it.index() as int),
            forall|j: int| 0 <= j < it.index() ==> !(s[j] == '=' && #[trigger] blank_before(s, j)),
    {
        let ghost k: int = it.index() as int;
        assert(0 <= k < s.len());
        assert(c == s[k]);
        if c == '=' && blank {
            assert(s[k] == '=' && blank_before(s, k));
            return true;
        }
        blank = c == '\n' || (white_space(c) && blank);
    }
    false
}

/// `DesktopEntry::decode`, given the path as a string. It fails exactly where the
/// path has no file stem; the entry it gives holds the id, keys and translation
/// domain that `desktop_entry_decoded` names. It panics on a line that starts with
/// `=`, which `requires` leaves out.
#[verifier::external_body]
fn decode<'a>(path: &'a str, text: &'a str) -> (r: Result<DesktopEntry<'a>, DecodeError>)
    requires
        !has_nameless_key(text@),
    ensures
        r is Ok <==> desktop_entry_decoded(path@, text@) is Some,
        r matches Ok(e) ==> desktop_entry_decoded(path@, text@) == Some(
            (desktop_entry_identity(e).0, desktop_entry_keys(e), desktop_entry_identity(e).1),
        ),
{
    DesktopEntry::decode(std::path::Path::new(path), text)
}

pub open spec fn opt_view(o: Option<String>) -> Option<Seq<char>> {
    match o {
        Some(s) => Some(s@),
        None => None,
    }
}

/// The value of `key` in a group, if the key is there.
pub open spec fn lookup(keys: Map<Seq<char>, Seq<char>>, key: Seq<char>) -> Option<Seq<char>> {
    if keys.dom().contains(key) {
        Some(keys[key])
    } else {
        None
    }
}

/// What holds of a localized lookup with no locale: it finds something exactly
/// where the key is there, and that is the unlocalized value unless a
/// translation domain is named (then gettext translates it).
pub open spec fn localized_lookup(
    r: Option<Seq<char>>,
    keys: Map<Seq<char>, Seq<char>>,
    key: Seq<char>,
    domain: Option<Seq<char>>,
) -> bool {
    &&& (r is Some <==> keys.dom().contains(key))
    &&& domain is None ==> r == lookup(keys, key)
}

/// `DesktopEntry::exec`: the `Exec` key.
#[verifier::external_body]
fn entry_exec(e: &DesktopEntry) -> (r: Option<String>)
    ensures
        opt_view(r) == lookup(desktop_entry_keys(*e), "Exec"@),
{
    e.exec().map(String::from)
}

/// `DesktopEntry::icon`: the `Icon` key.
#[verifier::external_body]
fn entry_icon(e: &DesktopEntry) -> (r: Option<String>)
    ensures
        opt_view(r) == lookup(desktop_entry_keys(*e), "Icon"@),
{
    e.icon().map(String::from)
}

/// `DesktopEntry::type_`: the `Type` key.
#[verifier::external_body]
fn entry_type(e: &DesktopEntry) -> (r: Option<String>)
    ensures
        opt_view(r) == lookup(desktop_entry_keys(*e), "Type"@),
{
    e.type_().map(String::from)
}

/// `DesktopEntry::no_display`: whether the `NoDisplay` key is `true`.
#[verifier::external_body]
fn entry_no_display(e: &DesktopEntry) -> (r: bool)
    ensures
        r == (lookup(desktop_entry_keys(*e), "NoDisplay"@) == Some("true"@)),
{
    e.no_display()
}

/// `DesktopEntry::id`: the application id taken from the path.
#[verifier::external_body]
fn entry_id(e: &DesktopEntry) -> (r: String)
    ensures
        r@ == desktop_entry_identity(*e).0,
{
    String::from(e.id())
}

/// Whether gettext can be asked for the translation of `key`: it is asked only
/// where the key is there and a translation domain is named, and it panics where
/// the domain or the value holds a NUL character.
pub open spec fn translatable(
    keys: Map<Seq<char>, Seq<char>>,
    key: Seq<char>,
    domain: Option<Seq<char>>,
) -> bool {
    (domain is Some && keys.dom().contains(key)) ==> !domain->0.contains('\0') && !keys[key].contains(
        '\0',
    )
}

/// Whether the keys make a shown application with a name: the entries whose
/// generic name is read.
pub open spec fn shown_application(keys: Map<Seq<char>, Seq<char>>) -> bool {
    &&& lookup(keys, "NoDisplay"@) != Some("true"@)
    &&& lookup(keys, "Type"@) == Some("Application"@)
    &&& keys.dom().contains("Name"@)
}

/// Whether reading the names of this file through gettext cannot panic: the
/// name is always read, the generic name only of a shown application.
pub open spec fn names_translatable(path: Seq<char>, text: Seq<char>) -> bool {
    match desktop_entry_decoded(path, text) {
        Some(d) => translatable(d.1, "Name"@, d.2) && (shown_application(d.1) ==> translatable(
            d.1,
            "GenericName"@,
            d.2,
        )),
        None => true,
    }
}

/// A sign that gettext accepted to give the translations of `domain` in
/// `codeset`.
pub struct Codeset {
    domain: String,
    codeset: String,
}

/// Whether asking gettext for the translation of `key` cannot panic: where it
/// is asked, neither the domain nor the value holds a NUL, and gettext has
/// accepted to give that domain's translations in UTF-8.
spec fn gettext_safe(
    keys: Map<Seq<char>, Seq<char>>,
    key: Seq<char>,
    domain: Option<Seq<char>>,
    codeset: Option<Codeset>,
) -> bool {
    (domain is Some && keys.dom().contains(key)) ==> {
        &&& translatable(keys, key, domain)
        &&& codeset matches Some(c) && c.domain@ == domain->0 && c.codeset@ == "UTF-8"@
    }
}

/// `gettextrs::bind_textdomain_codeset`: asks gettext to give the translations of
/// `domain` in `codeset`; the sign of it where gettext accepts. It panics on a
/// NUL in either argument, which `requires` leaves out.
#[verifier::external_body]
fn bind_codeset(domain: &str, codeset: &str) -> (r: Option<Codeset>)
    requires
        !domain@.contains('\0'),
        !codeset@.contains('\0'),
    ensures
        r matches Some(c) ==> c.domain@ == domain@ && c.codeset@ == codeset@,
{
    match gettextrs::bind_textdomain_codeset(domain, codeset) {
        Ok(_) => Some(Codeset { domain: String::from(domain), codeset: String::from(codeset) }),
        Err(_) => None,
    }
}

/// `DesktopEntry::name` with no locale: the `Name` key, translated by gettext
/// where the file names a translation domain. What gettext gives back depends
/// on the environment and is not stated. gettext panics on a NUL in the domain
/// or the value, and on a translation that is not UTF-8; `requires` leaves out
/// the first, and asks for the sign that gettext gives this domain in UTF-8
/// against the second.
#[verifier::external_body]
fn entry_name(e: &DesktopEntry, codeset: &Option<Codeset>) -> (r: Option<String>)
    requires
        gettext_safe(desktop_entry_keys(*e), "Name"@, desktop_entry_identity(*e).1, *codeset),
    ensures
        localized_lookup(opt_view(r), desktop_entry_keys(*e), "Name"@, desktop_entry_identity(*e).1),
{
    e.name(None).map(std::borrow::Cow::into_owned)
}

/// `DesktopEntry::generic_name` with no locale: the `GenericName` key, translated
/// by gettext where the file names a translation domain. What gettext gives back
/// depends on the environment and is not stated. gettext panics on a NUL in the
/// domain or the value, and on a translation that is not UTF-8; `requires` leaves
/// out the first, and asks for the sign that gettext gives this domain in UTF-8
/// against the second.
#[verifier::external_body]
fn entry_generic_name(e: &DesktopEntry, codeset: &Option<Codeset>) -> (r: Option<String>)
    requires
        gettext_safe(desktop_entry_keys(*e), "GenericName"@, desktop_entry_identity(*e).1, *codeset),
    ensures
        localized_lookup(
            opt_view(r),
            desktop_entry_keys(*e),
            "GenericName"@,
            desktop_entry_identity(*e).1,
        ),
{
    e.generic_name(None).map(std::borrow::Cow::into_owned)
}

/// `DesktopEntry::desktop_entry`: the unlocalized value of a key of the
/// `[Desktop Entry]` group.
#[verifier::external_body]
fn entry_value(e: &DesktopEntry, key: &str) -> (r: Option<String>)
    ensures
        opt_view(r) == lookup(desktop_entry_keys(*e), key@),
{
    e.desktop_entry(key).map(String::from)
}

/// The translation domain of a decoded entry (its `ubuntu_gettext_domain` field).
#[verifier::external_body]
fn entry_translation_domain(e: &DesktopEntry) -> (r: Option<String>)
    ensures
        opt_view(r) == desktop_entry_identity(*e).1,
{
    e.ubuntu_gettext_domain.map(String::from)
}

/// Whether a string holds a NUL character.
pub fn has_nul(s: &str) -> (b: bool)
    ensures
        b == s@.contains('\0'),
{
    let ghost t = s@;
    for c in it: s.chars()
        invariant
            it.seq() == t,
            t == s@,
            forall|j: int| 0 <= j < it.index() ==> t[j] != '\0',
    {
        let ghost k: int = it.index() as int;
        assert(c == t[k]);
        if c == '\0' {
            return true;
        }
    }
    false
}

/// Whether `key` of a decoded entry can be translated without panicking.
fn key_translatable(e: &DesktopEntry, key: &str, domain: &Option<String>) -> (b: bool)
    requires
        opt_view(*domain) == desktop_entry_identity(*e).1,
    ensures
        b == translatable(desktop_entry_keys(*e), key@, desktop_entry_identity(*e).1),
{
    match domain {
        None => true,
        Some(d) => match entry_value(e, key) {
            None => true,
            Some(v) => !has_nul(d.as_str()) && !has_nul(v.as_str()),
        },
    }
}

/// Whether the type read is `Application`.
fn is_application(entry_type: &Option<String>) -> (b: bool)
    ensures
        b == (opt_view(*entry_type) == Some("Application"@)),
{
    let application = "Application".to_owned();
    match entry_type {
        Some(t) => *t == application,
        None => false,
    }
}

/// Whether a decoded entry is a shown application with a name.
fn entry_shown_application(e: &DesktopEntry) -> (b: bool)
    ensures
        b == shown_application(desktop_entry_keys(*e)),
{
    let no_display = entry_no_display(e);
    let t = entry_type(e);
    let name = entry_value(e, "Name");
    !no_display && is_application(&t) && name.is_some()
}

/// Whether the names of this file can be read through gettext without panicking.
pub fn names_can_be_translated(path: &str, text: &str) -> (b: bool)
    requires
        !has_nameless_key(text@),
    ensures
        b == names_translatable(path@, text@),
{
    match decode(path, text) {
        Err(_) => true,
        Ok(e) => {
            let domain = entry_translation_domain(&e);
            key_translatable(&e, "Name", &domain) && (!entry_shown_application(&e)
                || key_translatable(&e, "GenericName", &domain))
        },
    }
}

/// What the launcher reads of a decoded desktop entry. The generic name is
/// read only of a shown application with a name.
pub struct DesktopEntryInfo {
    pub id: String,
    pub no_display: bool,
    pub entry_type: Option<String>,
    pub name: Option<String>,
    pub generic_name: Option<String>,
    pub icon: Option<String>,
    pub command: Option<String>,
}

/// `info` holds what the accessors give for an entry with this id, keys and
/// translation domain.
pub open spec fn info_of(
    info: DesktopEntryInfo,
    id: Seq<char>,
    keys: Map<Seq<char>, Seq<char>>,
    domain: Option<Seq<char>>,
) -> bool {
    &&& info.id@ == id
    &&& info.no_display == (lookup(keys, "NoDisplay"@) == Some("true"@))
    &&& opt_view(info.entry_type) == lookup(keys, "Type"@)
    &&& localized_lookup(opt_view(info.name), keys, "Name"@, domain)
    &&& if shown_application(keys) {
        localized_lookup(opt_view(info.generic_name), keys, "GenericName"@, domain)
    } else {
        info.generic_name is None
    }
    &&& opt_view(info.icon) == lookup(keys, "Icon"@)
    &&& opt_view(info.command) == lookup(keys, "Exec"@)
}

/// `r` is what reading the file at `path` with this text gives: nothing where
/// decoding fails, else the entry's info.
pub open spec fn read_matches(path: Seq<char>, text: Seq<char>, r: Option<DesktopEntryInfo>) -> bool {
    match desktop_entry_decoded(path, text) {
        None => r is None,
        Some(d) => r matches Some(info) && info_of(info, d.0, d.1, d.2),
    }
}

/// Decodes a desktop file and reads what the launcher needs of it; `None` where
/// the path has no file stem. Where the file names a translation domain, gettext
/// is first asked to give that domain's translations in UTF-8; should it refuse,
/// the names are read untranslated rather than through gettext.
pub fn read_desktop_entry(path: &str, text: &str) -> (r: Option<DesktopEntryInfo>)
    requires
        !has_nameless_key(text@),
        names_translatable(path@, text@),
    ensures
        read_matches(path@, text@, r),
{
    match decode(path, text) {
        Err(_) => None,
        Ok(e) => {
            proof {
                reveal_strlit("UTF-8");
            }
            let domain = entry_translation_domain(&e);
            let codeset = match &domain {
                Some(d) => if has_nul(d.as_str()) {
                    None
                } else {
                    bind_codeset(d.as_str(), "UTF-8")
                },
                None => None,
            };
            let untranslated = domain.is_some() && codeset.is_none();
            let id = entry_id(&e);
            let no_display = entry_no_display(&e);
            let entry_type = entry_type(&e);
            let name = if untranslated {
                entry_value(&e, "Name")
            } else {
                entry_name(&e, &codeset)
            };
            let generic_name = if !no_display && is_application(&entry_type) && name.is_some() {
                if untranslated {
                    entry_value(&e, "GenericName")
                } else {
                    entry_generic_name(&e, &codeset)
                }
            } else {
                None
            };
            let info = DesktopEntryInfo {
                id,
                no_display,
                entry_type,
                name,
                generic_name,
                icon: entry_icon(&e),
                command: entry_exec(&e),
            };
            Some(info)
        },
    }
}

} // verus!
