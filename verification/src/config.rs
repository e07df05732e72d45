use vstd::prelude::*;

verus! {

/// The abstract shape of a parsed configuration document: sections mapped to
/// fields mapped to an optional textual value.
pub type IniDoc = Map<Seq<char>, Map<Seq<char>, Option<Seq<char>>>>;

#[verifier::external_type_specification]
#[verifier::external_body]
pub struct ExIni(configparser::ini::Ini);

/// The abstract lookup state an `Ini` value holds: its parsed sections
/// together with the lookup settings it was built with.
pub uninterp spec fn ini_doc(ini: configparser::ini::Ini) -> IniDoc;

/// What `configparser::ini::Ini::read` yields on a freshly constructed,
/// default-configured `Ini` for a given input text: either the resulting
/// lookup state or a parse-error message. The result depends on the text
/// alone.
pub uninterp spec fn ini_parse(text: Seq<char>) -> Result<IniDoc, Seq<char>>;

/// What `configparser::ini::Ini::getuint` returns on an `Ini` with the given
/// lookup state: the field's value as an unsigned integer, `None` if the
/// field is absent, or a message if the value does not parse as `u64`. The
/// result depends on the state and the two names alone.
pub uninterp spec fn ini_uint(doc: IniDoc, section: Seq<char>, field: Seq<char>) -> Result<
    Option<u64>,
    Seq<char>,
>;

/// Relies on `configparser::ini::Ini::new` and `Ini::read`: `read` parses the
/// given text (no file is touched) and replaces the fresh `Ini`'s map with
/// the parsed sections, returning an error message on malformed input.
#[verifier::external_body]
fn parse_ini(text: &str) -> (r: Result<configparser::ini::Ini, String>)
    ensures
        (r is Ok) == (ini_parse(text@) is Ok),
        r matches Ok(ini) ==> ini_doc(ini) == ini_parse(text@)->Ok_0,
        r matches Err(m) ==> m@ == ini_parse(text@)->Err_0,
{
    let mut ini = configparser::ini::Ini::new();
    match ini.read(text.to_string()) {
        Ok(_) => Ok(ini),
        Err(m) => Err(m),
    }
}

/// Relies on `configparser::ini::Ini::getuint`: it looks the field up in the
/// stored map (case-folded under the `Ini`'s settings) and parses the stored
/// value as a `u64`, with `Ok(None)` when the field is absent.
#[verifier::external_body]
fn ini_getuint(ini: &configparser::ini::Ini, section: &str, field: &str) -> (r: Result<
    Option<u64>,
    String,
>)
    ensures
        (r is Ok) == (ini_uint(ini_doc(*ini), section@, field@) is Ok),
        r matches Ok(v) ==> v == ini_uint(ini_doc(*ini), section@, field@)->Ok_0,
        r matches Err(m) ==> m@ == ini_uint(ini_doc(*ini), section@, field@)->Err_0,
{
    ini.getuint(section, field)
}

/// The configuration-reading capability: a document parsed from text, with a
/// typed unsigned-integer lookup by section and field name.
///
/// Implementations declare what parsing and lookup yield as spec functions,
/// so validation states its outcome exactly for any implementation; tests may
/// substitute an in-memory one.
pub trait Config: Sized {
    /// The abstract document this configuration value holds.
    spec fn doc(&self) -> IniDoc;

    /// What parsing a given text yields for this implementation.
    spec fn parse_spec(text: Seq<char>) -> Result<IniDoc, Seq<char>>;

    /// What the unsigned-integer lookup yields on a given document.
    spec fn uint_spec(doc: IniDoc, section: Seq<char>, field: Seq<char>) -> Result<
        Option<u64>,
        Seq<char>,
    >;

    /// Parse a configuration document from text, failing with a message on
    /// malformed input.
    fn parse(text: &str) -> (r: Result<Self, String>)
        ensures
            (r is Ok) == (Self::parse_spec(text@) is Ok),
            r matches Ok(c) ==> c.doc() == Self::parse_spec(text@)->Ok_0,
            r matches Err(m) ==> m@ == Self::parse_spec(text@)->Err_0,
    ;

    /// Look a field up as an unsigned integer: `Ok(None)` when the field is
    /// absent, an error message when it is present but not an unsigned
    /// integer.
    fn getuint(&self, section: &str, field: &str) -> (r: Result<Option<u64>, String>)
        ensures
            (r is Ok) == (Self::uint_spec(self.doc(), section@, field@) is Ok),
            r matches Ok(v) ==> v == Self::uint_spec(self.doc(), section@, field@)->Ok_0,
            r matches Err(m) ==> m@ == Self::uint_spec(self.doc(), section@, field@)->Err_0,
    ;
}

/// The configuration capability backed by `configparser`'s INI parser.
#[derive(Debug)]
pub struct IniConfig {
    ini: configparser::ini::Ini,
}

impl Config for IniConfig {
    closed spec fn doc(&self) -> IniDoc {
        ini_doc(self.ini)
    }

    open spec fn parse_spec(text: Seq<char>) -> Result<IniDoc, Seq<char>> {
        ini_parse(text)
    }

    open spec fn uint_spec(doc: IniDoc, section: Seq<char>, field: Seq<char>) -> Result<
        Option<u64>,
        Seq<char>,
    > {
        ini_uint(doc, section, field)
    }

    fn parse(text: &str) -> (r: Result<Self, String>) {
        match parse_ini(text) {
            Ok(ini) => Ok(IniConfig { ini }),
            Err(m) => Err(m),
        }
    }

    fn getuint(&self, section: &str, field: &str) -> (r: Result<Option<u64>, String>) {
        ini_getuint(&self.ini, section, field)
    }
}

} // verus!
