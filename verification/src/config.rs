//! The field selector: which response attributes a request asks for, and in
//! which language, and how both render into the request's query string.

use vstd::prelude::*;
use vstd::string::StringExecFns;
use crate::fields::lemma_message_weight_distinct;
use crate::fields::lemma_tag_shift_range;
use crate::fields::lemma_weight_clear;
use crate::fields::lemma_weight_or;
use crate::fields::lemma_weight_vs_message;
use crate::fields::spec_tag_shift;
use crate::fields::spec_tag_weight;
use crate::fields::tag_weight;
use crate::fields::FieldTag;
use crate::fields::MESSAGE_WEIGHT;
use crate::text::dec_str;
use crate::text::u32_to_dec;

verus! {

/// Represents all available languages for a lookup response.
#[derive(Clone, Copy, Debug, PartialEq, Eq, Structural)]
pub enum IpApiLanguage {
    /// Deutsch (German)
    De,
    /// English (default)
    En,
    /// Espanol (Spanish)
    Es,
    /// Francais (French)
    Fr,
    /// Japanese
    Ja,
    /// Portuguese (Brazil)
    PtBr,
    /// Russian
    Ru,
    /// Chinese (Simplified)
    ZhCn,
}

/// The query-string suffix a language renders to; English, the default,
/// adds nothing.
pub open spec fn spec_lang_suffix(l: IpApiLanguage) -> Seq<char> {
    match l {
        IpApiLanguage::De => "&lang=de"@,
        IpApiLanguage::En => Seq::<char>::empty(),
        IpApiLanguage::Es => "&lang=es"@,
        IpApiLanguage::Fr => "&lang=fr"@,
        IpApiLanguage::Ja => "&lang=ja"@,
        IpApiLanguage::PtBr => "&lang=pt-BR"@,
        IpApiLanguage::Ru => "&lang=ru"@,
        IpApiLanguage::ZhCn => "&lang=zh-CN"@,
    }
}

/// Executable form of `spec_lang_suffix`.
fn lang_suffix(l: IpApiLanguage) -> (r: &'static str)
    ensures
        r@ == spec_lang_suffix(l),
{
    match l {
        IpApiLanguage::De => "&lang=de",
        IpApiLanguage::En => {
            proof {
                reveal_strlit("");
                assert(""@ =~= Seq::<char>::empty());
            }
            ""
        },
        IpApiLanguage::Es => "&lang=es",
        IpApiLanguage::Fr => "&lang=fr",
        IpApiLanguage::Ja => "&lang=ja",
        IpApiLanguage::PtBr => "&lang=pt-BR",
        IpApiLanguage::Ru => "&lang=ru",
        IpApiLanguage::ZhCn => "&lang=zh-CN",
    }
}

/// Configuration structure: which optional attributes a request asks for,
/// kept as the numeric wire mask, plus the response language.
#[derive(Clone, Debug)]
pub struct IpApiConfig {
    numeric_field: u32,
    language: IpApiLanguage,
}

/// The full request URI for a lookup: the resource, then a `/` and the
/// target for a single lookup (the target is empty for the caller's own
/// address) — a batch names no target and no separator — then the rendered
/// mask and the language suffix.
pub open spec fn spec_uri(
    resource: Seq<char>,
    target: Option<Seq<char>>,
    fields: u32,
    language: IpApiLanguage,
) -> Seq<char> {
    "http://ip-api.com/"@ + resource + (match target {
        Some(t) => "/"@ + t,
        None => Seq::<char>::empty(),
    }) + "?fields="@ + dec_str(fields as nat) + spec_lang_suffix(language)
}

impl IpApiConfig {
    /// The numeric field mask this selector renders.
    pub closed spec fn mask(self) -> u32 {
        self.numeric_field
    }

    /// The response language this selector renders.
    pub closed spec fn lang(self) -> IpApiLanguage {
        self.language
    }

    /// Whether the attribute `t` is asked for.
    pub open spec fn selects(self, t: FieldTag) -> bool {
        self.mask() & spec_tag_weight(t) != 0
    }

    /// Whether the hidden status/message member is asked for. Every selector
    /// this crate builds keeps it on, so that in-band errors stay readable.
    pub open spec fn message_requested(self) -> bool {
        self.mask() & MESSAGE_WEIGHT != 0
    }

    /// Add one attribute weight to the mask.
    fn with_field(self, t: FieldTag) -> (r: Self)
        ensures
            r.mask() == self.mask() | spec_tag_weight(t),
            r.lang() == self.lang(),
            forall|u: FieldTag| r.selects(u) == (self.selects(u) || u == t),
            r.message_requested() == self.message_requested(),
    {
        let m = self.numeric_field;
        let language = self.language;
        let w = tag_weight(t);
        let r = IpApiConfig { numeric_field: m | w, language };
        proof {
            assert forall|u: FieldTag| r.selects(u) == (self.selects(u) || u == t) by {
                lemma_weight_or(m, t, u);
            }
            lemma_weight_vs_message(m, t);
        }
        r
    }

    /// Remove one attribute weight from the mask.
    fn without_field(self, t: FieldTag) -> (r: Self)
        ensures
            r.mask() == self.mask() & !spec_tag_weight(t),
            r.lang() == self.lang(),
            forall|u: FieldTag| r.selects(u) == (self.selects(u) && u != t),
            r.message_requested() == self.message_requested(),
    {
        let m = self.numeric_field;
        let language = self.language;
        let w = tag_weight(t);
        let r = IpApiConfig { numeric_field: m & !w, language };
        proof {
            assert forall|u: FieldTag| r.selects(u) == (self.selects(u) && u != t) by {
                lemma_weight_clear(m, t, u);
            }
            lemma_weight_vs_message(m, t);
        }
        r
    }

    /// Set a custom language for the response.
    pub fn set_language(self, language: IpApiLanguage) -> (r: Self)
        ensures
            r.mask() == self.mask(),
            r.lang() == language,
    {
        IpApiConfig { numeric_field: self.numeric_field, language }
    }

    /// Build the URI one request will use.
    pub fn build_uri(
        resource: &str,
        target: Option<&str>,
        fields: u32,
        language: IpApiLanguage,
    ) -> (r: String)
        ensures
            r@ == spec_uri(
                resource@,
                (match target {
                    Some(t) => Some(t@),
                    None => None,
                }),
                fields,
                language,
            ),
    {
        let mut s = String::from_str("http://ip-api.com/");
        s.append(resource);
        if let Some(t) = target {
            s.append("/");
            s.append(t);
        }
        s.append("?fields=");
        let num = u32_to_dec(fields);
        s.append(num.as_str());
        s.append(lang_suffix(language));
        proof {
            assert(s@ =~= spec_uri(
                resource@,
                (match target {
                    Some(t) => Some(t@),
                    None => None,
                }),
                fields,
                language,
            ));
        }
        s
    }

    /// Render the GET URI for a single lookup of `target`: an IP, a domain,
    /// or the empty string for the caller's own address.
    pub fn single_request_uri(&self, target: &str) -> (r: String)
        ensures
            r@ == spec_uri("json"@, Some(target@), self.mask(), self.lang()),
    {
        Self::build_uri("json", Some(target), self.numeric_field, self.language)
    }

    /// Render the POST URI for a batch lookup.
    pub fn batch_request_uri(&self) -> (r: String)
        ensures
            r@ == spec_uri("batch"@, None, self.mask(), self.lang()),
    {
        Self::build_uri("batch", None, self.numeric_field, self.language)
    }

    /// Ask for the `continent` attribute in the response.
    pub fn include_continent(self) -> (r: Self)
        ensures
            r.mask() == self.mask() | spec_tag_weight(FieldTag::Continent),
            r.lang() == self.lang(),
            forall|u: FieldTag| r.selects(u) == (self.selects(u) || u == FieldTag::Continent),
            r.message_requested() == self.message_requested(),
    {
        self.with_field(FieldTag::Continent)
    }

    /// Ask for the `continent_code` attribute in the response.
    pub fn include_continent_code(self) -> (r: Self)
        ensures
            r.mask() == self.mask() | spec_tag_weight(FieldTag::ContinentCode),
            r.lang() == self.lang(),
            forall|u: FieldTag| r.selects(u) == (self.selects(u) || u == FieldTag::ContinentCode),
            r.message_requested() == self.message_requested(),
    {
        self.with_field(FieldTag::ContinentCode)
    }

    /// Ask for the `country` attribute in the response.
    pub fn include_country(self) -> (r: Self)
        ensures
            r.mask() == self.mask() | spec_tag_weight(FieldTag::Country),
            r.lang() == self.lang(),
            forall|u: FieldTag| r.selects(u) == (self.selects(u) || u == FieldTag::Country),
            r.message_requested() == self.message_requested(),
    {
        self.with_field(FieldTag::Country)
    }

    /// Ask for the `country_code` attribute in the response.
    pub fn include_country_code(self) -> (r: Self)
        ensures
            r.mask() == self.mask() | spec_tag_weight(FieldTag::CountryCode),
            r.lang() == self.lang(),
            forall|u: FieldTag| r.selects(u) == (self.selects(u) || u == FieldTag::CountryCode),
            r.message_requested() == self.message_requested(),
    {
        self.with_field(FieldTag::CountryCode)
    }

    /// Ask for the `region` attribute in the response.
    pub fn include_region(self) -> (r: Self)
        ensures
            r.mask() == self.mask() | spec_tag_weight(FieldTag::Region),
            r.lang() == self.lang(),
            forall|u: FieldTag| r.selects(u) == (self.selects(u) || u == FieldTag::Region),
            r.message_requested() == self.message_requested(),
    {
        self.with_field(FieldTag::Region)
    }

    /// Ask for the `region_name` attribute in the response.
    pub fn include_region_name(self) -> (r: Self)
        ensures
            r.mask() == self.mask() | spec_tag_weight(FieldTag::RegionName),
            r.lang() == self.lang(),
            forall|u: FieldTag| r.selects(u) == (self.selects(u) || u == FieldTag::RegionName),
            r.message_requested() == self.message_requested(),
    {
        self.with_field(FieldTag::RegionName)
    }

    /// Ask for the `city` attribute in the response.
    pub fn include_city(self) -> (r: Self)
        ensures
            r.mask() == self.mask() | spec_tag_weight(FieldTag::City),
            r.lang() == self.lang(),
            forall|u: FieldTag| r.selects(u) == (self.selects(u) || u == FieldTag::City),
            r.message_requested() == self.message_requested(),
    {
        self.with_field(FieldTag::City)
    }

    /// Ask for the `district` attribute in the response.
    pub fn include_district(self) -> (r: Self)
        ensures
            r.mask() == self.mask() | spec_tag_weight(FieldTag::District),
            r.lang() == self.lang(),
            forall|u: FieldTag| r.selects(u) == (self.selects(u) || u == FieldTag::District),
            r.message_requested() == self.message_requested(),
    {
        self.with_field(FieldTag::District)
    }

    /// Ask for the `zip` attribute in the response.
    pub fn include_zip(self) -> (r: Self)
        ensures
            r.mask() == self.mask() | spec_tag_weight(FieldTag::Zip),
            r.lang() == self.lang(),
            forall|u: FieldTag| r.selects(u) == (self.selects(u) || u == FieldTag::Zip),
            r.message_requested() == self.message_requested(),
    {
        self.with_field(FieldTag::Zip)
    }

    /// Ask for the `lat` attribute in the response.
    pub fn include_lat(self) -> (r: Self)
        ensures
            r.mask() == self.mask() | spec_tag_weight(FieldTag::Lat),
            r.lang() == self.lang(),
            forall|u: FieldTag| r.selects(u) == (self.selects(u) || u == FieldTag::Lat),
            r.message_requested() == self.message_requested(),
    {
        self.with_field(FieldTag::Lat)
    }

    /// Ask for the `lon` attribute in the response.
    pub fn include_lon(self) -> (r: Self)
        ensures
            r.mask() == self.mask() | spec_tag_weight(FieldTag::Lon),
            r.lang() == self.lang(),
            forall|u: FieldTag| r.selects(u) == (self.selects(u) || u == FieldTag::Lon),
            r.message_requested() == self.message_requested(),
    {
        self.with_field(FieldTag::Lon)
    }

    /// Ask for the `timezone` attribute in the response.
    pub fn include_timezone(self) -> (r: Self)
        ensures
            r.mask() == self.mask() | spec_tag_weight(FieldTag::Timezone),
            r.lang() == self.lang(),
            forall|u: FieldTag| r.selects(u) == (self.selects(u) || u == FieldTag::Timezone),
            r.message_requested() == self.message_requested(),
    {
        self.with_field(FieldTag::Timezone)
    }

    /// Ask for the `offset` attribute in the response.
    pub fn include_offset(self) -> (r: Self)
        ensures
            r.mask() == self.mask() | spec_tag_weight(FieldTag::Offset),
            r.lang() == self.lang(),
            forall|u: FieldTag| r.selects(u) == (self.selects(u) || u == FieldTag::Offset),
            r.message_requested() == self.message_requested(),
    {
        self.with_field(FieldTag::Offset)
    }

    /// Ask for the `currency` attribute in the response.
    pub fn include_currency(self) -> (r: Self)
        ensures
            r.mask() == self.mask() | spec_tag_weight(FieldTag::Currency),
            r.lang() == self.lang(),
            forall|u: FieldTag| r.selects(u) == (self.selects(u) || u == FieldTag::Currency),
            r.message_requested() == self.message_requested(),
    {
        self.with_field(FieldTag::Currency)
    }

    /// Ask for the `isp` attribute in the response.
    pub fn include_isp(self) -> (r: Self)
        ensures
            r.mask() == self.mask() | spec_tag_weight(FieldTag::Isp),
            r.lang() == self.lang(),
            forall|u: FieldTag| r.selects(u) == (self.selects(u) || u == FieldTag::Isp),
            r.message_requested() == self.message_requested(),
    {
        self.with_field(FieldTag::Isp)
    }

    /// Ask for the `org` attribute in the response.
    pub fn include_org(self) -> (r: Self)
        ensures
            r.mask() == self.mask() | spec_tag_weight(FieldTag::Org),
            r.lang() == self.lang(),
            forall|u: FieldTag| r.selects(u) == (self.selects(u) || u == FieldTag::Org),
            r.message_requested() == self.message_requested(),
    {
        self.with_field(FieldTag::Org)
    }

    /// Ask for the `as_field` attribute in the response.
    pub fn include_as_field(self) -> (r: Self)
        ensures
            r.mask() == self.mask() | spec_tag_weight(FieldTag::AsField),
            r.lang() == self.lang(),
            forall|u: FieldTag| r.selects(u) == (self.selects(u) || u == FieldTag::AsField),
            r.message_requested() == self.message_requested(),
    {
        self.with_field(FieldTag::AsField)
    }

    /// Ask for the `asname` attribute in the response.
    pub fn include_asname(self) -> (r: Self)
        ensures
            r.mask() == self.mask() | spec_tag_weight(FieldTag::Asname),
            r.lang() == self.lang(),
            forall|u: FieldTag| r.selects(u) == (self.selects(u) || u == FieldTag::Asname),
            r.message_requested() == self.message_requested(),
    {
        self.with_field(FieldTag::Asname)
    }

    /// Ask for the `reverse` attribute in the response.
    pub fn include_reverse(self) -> (r: Self)
        ensures
            r.mask() == self.mask() | spec_tag_weight(FieldTag::Reverse),
            r.lang() == self.lang(),
            forall|u: FieldTag| r.selects(u) == (self.selects(u) || u == FieldTag::Reverse),
            r.message_requested() == self.message_requested(),
    {
        self.with_field(FieldTag::Reverse)
    }

    /// Ask for the `mobile` attribute in the response.
    pub fn include_mobile(self) -> (r: Self)
        ensures
            r.mask() == self.mask() | spec_tag_weight(FieldTag::Mobile),
            r.lang() == self.lang(),
            forall|u: FieldTag| r.selects(u) == (self.selects(u) || u == FieldTag::Mobile),
            r.message_requested() == self.message_requested(),
    {
        self.with_field(FieldTag::Mobile)
    }

    /// Ask for the `proxy` attribute in the response.
    pub fn include_proxy(self) -> (r: Self)
        ensures
            r.mask() == self.mask() | spec_tag_weight(FieldTag::Proxy),
            r.lang() == self.lang(),
            forall|u: FieldTag| r.selects(u) == (self.selects(u) || u == FieldTag::Proxy),
            r.message_requested() == self.message_requested(),
    {
        self.with_field(FieldTag::Proxy)
    }

    /// Ask for the `hosting` attribute in the response.
    pub fn include_hosting(self) -> (r: Self)
        ensures
            r.mask() == self.mask() | spec_tag_weight(FieldTag::Hosting),
            r.lang() == self.lang(),
            forall|u: FieldTag| r.selects(u) == (self.selects(u) || u == FieldTag::Hosting),
            r.message_requested() == self.message_requested(),
    {
        self.with_field(FieldTag::Hosting)
    }

    /// Ask for the `query` attribute in the response.
    pub fn include_query(self) -> (r: Self)
        ensures
            r.mask() == self.mask() | spec_tag_weight(FieldTag::Query),
            r.lang() == self.lang(),
            forall|u: FieldTag| r.selects(u) == (self.selects(u) || u == FieldTag::Query),
            r.message_requested() == self.message_requested(),
    {
        self.with_field(FieldTag::Query)
    }

    /// Drop the `continent` attribute from the response.
    pub fn exclude_continent(self) -> (r: Self)
        ensures
            r.mask() == self.mask() & !spec_tag_weight(FieldTag::Continent),
            r.lang() == self.lang(),
            forall|u: FieldTag| r.selects(u) == (self.selects(u) && u != FieldTag::Continent),
            r.message_requested() == self.message_requested(),
    {
        self.without_field(FieldTag::Continent)
    }

    /// Drop the `continent_code` attribute from the response.
    pub fn exclude_continent_code(self) -> (r: Self)
        ensures
            r.mask() == self.mask() & !spec_tag_weight(FieldTag::ContinentCode),
            r.lang() == self.lang(),
            forall|u: FieldTag| r.selects(u) == (self.selects(u) && u != FieldTag::ContinentCode),
            r.message_requested() == self.message_requested(),
    {
        self.without_field(FieldTag::ContinentCode)
    }

    /// Drop the `country` attribute from the response.
    pub fn exclude_country(self) -> (r: Self)
        ensures
            r.mask() == self.mask() & !spec_tag_weight(FieldTag::Country),
            r.lang() == self.lang(),
            forall|u: FieldTag| r.selects(u) == (self.selects(u) && u != FieldTag::Country),
            r.message_requested() == self.message_requested(),
    {
        self.without_field(FieldTag::Country)
    }

    /// Drop the `country_code` attribute from the response.
    pub fn exclude_country_code(self) -> (r: Self)
        ensures
            r.mask() == self.mask() & !spec_tag_weight(FieldTag::CountryCode),
            r.lang() == self.lang(),
            forall|u: FieldTag| r.selects(u) == (self.selects(u) && u != FieldTag::CountryCode),
            r.message_requested() == self.message_requested(),
    {
        self.without_field(FieldTag::CountryCode)
    }

    /// Drop the `region` attribute from the response.
    pub fn exclude_region(self) -> (r: Self)
        ensures
            r.mask() == self.mask() & !spec_tag_weight(FieldTag::Region),
            r.lang() == self.lang(),
            forall|u: FieldTag| r.selects(u) == (self.selects(u) && u != FieldTag::Region),
            r.message_requested() == self.message_requested(),
    {
        self.without_field(FieldTag::Region)
    }

    /// Drop the `region_name` attribute from the response.
    pub fn exclude_region_name(self) -> (r: Self)
        ensures
            r.mask() == self.mask() & !spec_tag_weight(FieldTag::RegionName),
            r.lang() == self.lang(),
            forall|u: FieldTag| r.selects(u) == (self.selects(u) && u != FieldTag::RegionName),
            r.message_requested() == self.message_requested(),
    {
        self.without_field(FieldTag::RegionName)
    }

    /// Drop the `city` attribute from the response.
    pub fn exclude_city(self) -> (r: Self)
        ensures
            r.mask() == self.mask() & !spec_tag_weight(FieldTag::City),
            r.lang() == self.lang(),
            forall|u: FieldTag| r.selects(u) == (self.selects(u) && u != FieldTag::City),
            r.message_requested() == self.message_requested(),
    {
        self.without_field(FieldTag::City)
    }

    /// Drop the `district` attribute from the response.
    pub fn exclude_district(self) -> (r: Self)
        ensures
            r.mask() == self.mask() & !spec_tag_weight(FieldTag::District),
            r.lang() == self.lang(),
            forall|u: FieldTag| r.selects(u) == (self.selects(u) && u != FieldTag::District),
            r.message_requested() == self.message_requested(),
    {
        self.without_field(FieldTag::District)
    }

    /// Drop the `zip` attribute from the response.
    pub fn exclude_zip(self) -> (r: Self)
        ensures
            r.mask() == self.mask() & !spec_tag_weight(FieldTag::Zip),
            r.lang() == self.lang(),
            forall|u: FieldTag| r.selects(u) == (self.selects(u) && u != FieldTag::Zip),
            r.message_requested() == self.message_requested(),
    {
        self.without_field(FieldTag::Zip)
    }

    /// Drop the `lat` attribute from the response.
    pub fn exclude_lat(self) -> (r: Self)
        ensures
            r.mask() == self.mask() & !spec_tag_weight(FieldTag::Lat),
            r.lang() == self.lang(),
            forall|u: FieldTag| r.selects(u) == (self.selects(u) && u != FieldTag::Lat),
            r.message_requested() == self.message_requested(),
    {
        self.without_field(FieldTag::Lat)
    }

    /// Drop the `lon` attribute from the response.
    pub fn exclude_lon(self) -> (r: Self)
        ensures
            r.mask() == self.mask() & !spec_tag_weight(FieldTag::Lon),
            r.lang() == self.lang(),
            forall|u: FieldTag| r.selects(u) == (self.selects(u) && u != FieldTag::Lon),
            r.message_requested() == self.message_requested(),
    {
        self.without_field(FieldTag::Lon)
    }

    /// Drop the `timezone` attribute from the response.
    pub fn exclude_timezone(self) -> (r: Self)
        ensures
            r.mask() == self.mask() & !spec_tag_weight(FieldTag::Timezone),
            r.lang() == self.lang(),
            forall|u: FieldTag| r.selects(u) == (self.selects(u) && u != FieldTag::Timezone),
            r.message_requested() == self.message_requested(),
    {
        self.without_field(FieldTag::Timezone)
    }

    /// Drop the `offset` attribute from the response.
    pub fn exclude_offset(self) -> (r: Self)
        ensures
            r.mask() == self.mask() & !spec_tag_weight(FieldTag::Offset),
            r.lang() == self.lang(),
            forall|u: FieldTag| r.selects(u) == (self.selects(u) && u != FieldTag::Offset),
            r.message_requested() == self.message_requested(),
    {
        self.without_field(FieldTag::Offset)
    }

    /// Drop the `currency` attribute from the response.
    pub fn exclude_currency(self) -> (r: Self)
        ensures
            r.mask() == self.mask() & !spec_tag_weight(FieldTag::Currency),
            r.lang() == self.lang(),
            forall|u: FieldTag| r.selects(u) == (self.selects(u) && u != FieldTag::Currency),
            r.message_requested() == self.message_requested(),
    {
        self.without_field(FieldTag::Currency)
    }

    /// Drop the `isp` attribute from the response.
    pub fn exclude_isp(self) -> (r: Self)
        ensures
            r.mask() == self.mask() & !spec_tag_weight(FieldTag::Isp),
            r.lang() == self.lang(),
            forall|u: FieldTag| r.selects(u) == (self.selects(u) && u != FieldTag::Isp),
            r.message_requested() == self.message_requested(),
    {
        self.without_field(FieldTag::Isp)
    }

    /// Drop the `org` attribute from the response.
    pub fn exclude_org(self) -> (r: Self)
        ensures
            r.mask() == self.mask() & !spec_tag_weight(FieldTag::Org),
            r.lang() == self.lang(),
            forall|u: FieldTag| r.selects(u) == (self.selects(u) && u != FieldTag::Org),
            r.message_requested() == self.message_requested(),
    {
        self.without_field(FieldTag::Org)
    }

    /// Drop the `as_field` attribute from the response.
    pub fn exclude_as_field(self) -> (r: Self)
        ensures
            r.mask() == self.mask() & !spec_tag_weight(FieldTag::AsField),
            r.lang() == self.lang(),
            forall|u: FieldTag| r.selects(u) == (self.selects(u) && u != FieldTag::AsField),
            r.message_requested() == self.message_requested(),
    {
        self.without_field(FieldTag::AsField)
    }

    /// Drop the `asname` attribute from the response.
    pub fn exclude_asname(self) -> (r: Self)
        ensures
            r.mask() == self.mask() & !spec_tag_weight(FieldTag::Asname),
            r.lang() == self.lang(),
            forall|u: FieldTag| r.selects(u) == (self.selects(u) && u != FieldTag::Asname),
            r.message_requested() == self.message_requested(),
    {
        self.without_field(FieldTag::Asname)
    }

    /// Drop the `reverse` attribute from the response.
    pub fn exclude_reverse(self) -> (r: Self)
        ensures
            r.mask() == self.mask() & !spec_tag_weight(FieldTag::Reverse),
            r.lang() == self.lang(),
            forall|u: FieldTag| r.selects(u) == (self.selects(u) && u != FieldTag::Reverse),
            r.message_requested() == self.message_requested(),
    {
        self.without_field(FieldTag::Reverse)
    }

    /// Drop the `mobile` attribute from the response.
    pub fn exclude_mobile(self) -> (r: Self)
        ensures
            r.mask() == self.mask() & !spec_tag_weight(FieldTag::Mobile),
            r.lang() == self.lang(),
            forall|u: FieldTag| r.selects(u) == (self.selects(u) && u != FieldTag::Mobile),
            r.message_requested() == self.message_requested(),
    {
        self.without_field(FieldTag::Mobile)
    }

    /// Drop the `proxy` attribute from the response.
    pub fn exclude_proxy(self) -> (r: Self)
        ensures
            r.mask() == self.mask() & !spec_tag_weight(FieldTag::Proxy),
            r.lang() == self.lang(),
            forall|u: FieldTag| r.selects(u) == (self.selects(u) && u != FieldTag::Proxy),
            r.message_requested() == self.message_requested(),
    {
        self.without_field(FieldTag::Proxy)
    }

    /// Drop the `hosting` attribute from the response.
    pub fn exclude_hosting(self) -> (r: Self)
        ensures
            r.mask() == self.mask() & !spec_tag_weight(FieldTag::Hosting),
            r.lang() == self.lang(),
            forall|u: FieldTag| r.selects(u) == (self.selects(u) && u != FieldTag::Hosting),
            r.message_requested() == self.message_requested(),
    {
        self.without_field(FieldTag::Hosting)
    }

    /// Drop the `query` attribute from the response.
    pub fn exclude_query(self) -> (r: Self)
        ensures
            r.mask() == self.mask() & !spec_tag_weight(FieldTag::Query),
            r.lang() == self.lang(),
            forall|u: FieldTag| r.selects(u) == (self.selects(u) && u != FieldTag::Query),
            r.message_requested() == self.message_requested(),
    {
        self.without_field(FieldTag::Query)
    }
}

/// The mask of the empty selector: the hidden status weight alone.
pub open spec fn empty_mask() -> u32 {
    MESSAGE_WEIGHT
}

/// The mask of the curated minimal selector.
pub open spec fn minimal_mask() -> u32 {
    MESSAGE_WEIGHT | spec_tag_weight(FieldTag::CountryCode) | spec_tag_weight(FieldTag::City)
        | spec_tag_weight(FieldTag::Timezone) | spec_tag_weight(FieldTag::Offset)
        | spec_tag_weight(FieldTag::Currency) | spec_tag_weight(FieldTag::Isp)
}

/// The mask of the maximal selector: every attribute weight at once.
pub open spec fn maximal_mask() -> u32 {
    MESSAGE_WEIGHT | spec_tag_weight(FieldTag::Continent)
        | spec_tag_weight(FieldTag::ContinentCode) | spec_tag_weight(FieldTag::Country)
        | spec_tag_weight(FieldTag::CountryCode) | spec_tag_weight(FieldTag::Region)
        | spec_tag_weight(FieldTag::RegionName) | spec_tag_weight(FieldTag::City)
        | spec_tag_weight(FieldTag::District) | spec_tag_weight(FieldTag::Zip)
        | spec_tag_weight(FieldTag::Lat) | spec_tag_weight(FieldTag::Lon)
        | spec_tag_weight(FieldTag::Timezone) | spec_tag_weight(FieldTag::Offset)
        | spec_tag_weight(FieldTag::Currency) | spec_tag_weight(FieldTag::Isp)
        | spec_tag_weight(FieldTag::Org) | spec_tag_weight(FieldTag::AsField)
        | spec_tag_weight(FieldTag::Asname) | spec_tag_weight(FieldTag::Reverse)
        | spec_tag_weight(FieldTag::Mobile) | spec_tag_weight(FieldTag::Proxy)
        | spec_tag_weight(FieldTag::Hosting) | spec_tag_weight(FieldTag::Query)
}

/// Create an empty config to create your own from scratch.
pub fn generate_empty_config() -> (r: IpApiConfig)
    ensures
        r.mask() == empty_mask(),
        r.lang() == IpApiLanguage::En,
        r.message_requested(),
        forall|t: FieldTag| !r.selects(t),
{
    let r = IpApiConfig { numeric_field: MESSAGE_WEIGHT, language: IpApiLanguage::En };
    proof {
        assert(32768u32 & 32768u32 != 0) by (bit_vector);
        assert forall|t: FieldTag| !r.selects(t) by {
            lemma_message_weight_distinct(t);
        }
    }
    r
}

/// Generate minimum config that includes only important fields.
pub fn generate_minimum_config() -> (r: IpApiConfig)
    ensures
        r.mask() == minimal_mask(),
        r.lang() == IpApiLanguage::En,
        r.message_requested(),
        forall|t: FieldTag|
            r.selects(t) == (t == FieldTag::CountryCode || t == FieldTag::City
                || t == FieldTag::Timezone || t == FieldTag::Offset || t == FieldTag::Currency
                || t == FieldTag::Isp),
{
    generate_empty_config()
        .include_country_code()
        .include_city()
        .include_timezone()
        .include_offset()
        .include_currency()
        .include_isp()
}

/// Generate maximum config that includes all fields.
pub fn generate_maximum_config() -> (r: IpApiConfig)
    ensures
        r.mask() == maximal_mask(),
        r.lang() == IpApiLanguage::En,
        r.message_requested(),
        forall|t: FieldTag| r.selects(t),
{
    generate_empty_config()
        .include_continent()
        .include_continent_code()
        .include_country()
        .include_country_code()
        .include_region()
        .include_region_name()
        .include_city()
        .include_district()
        .include_zip()
        .include_lat()
        .include_lon()
        .include_timezone()
        .include_offset()
        .include_currency()
        .include_isp()
        .include_org()
        .include_as_field()
        .include_asname()
        .include_reverse()
        .include_mobile()
        .include_proxy()
        .include_hosting()
        .include_query()
}

/// Law: including an attribute a selector does not yet carry and then
/// excluding it restores the original mask, and with it the selected set
/// and the rendered query fragment.
pub proof fn lemma_include_exclude_roundtrip(c: IpApiConfig, t: FieldTag)
    requires
        !c.selects(t),
    ensures
        (c.mask() | spec_tag_weight(t)) & !spec_tag_weight(t) == c.mask(),
{
    lemma_tag_shift_range(t);
    let i = spec_tag_shift(t);
    let m = c.mask();
    assert(m & (1u32 << i) == 0 ==> (m | (1u32 << i)) & !(1u32 << i) == m) by (bit_vector)
        requires
            i < 32,
    ;
}

/// Law: the empty selector renders exactly the hidden status weight — the
/// digits "32768" — with no attribute weight inside it, and its default
/// language adds no suffix.
pub proof fn lemma_empty_render()
    ensures
        dec_str(empty_mask() as nat) == "32768"@,
        spec_lang_suffix(IpApiLanguage::En) == Seq::<char>::empty(),
        forall|t: FieldTag| empty_mask() & spec_tag_weight(t) == 0,
{
    reveal_strlit("32768");
    reveal_with_fuel(dec_str, 6);
    assert(dec_str(empty_mask() as nat) =~= seq!['3', '2', '7', '6', '8']);
    assert("32768"@ =~= seq!['3', '2', '7', '6', '8']);
    assert forall|t: FieldTag| empty_mask() & spec_tag_weight(t) == 0 by {
        lemma_message_weight_distinct(t);
    }
}

/// Law: the maximal selector's mask is the sum of every attribute's weight,
/// each counted exactly once, plus the hidden status weight.
pub proof fn lemma_maximal_mask_sums_weights()
    ensures
        maximal_mask() == MESSAGE_WEIGHT + spec_tag_weight(FieldTag::Continent)
            + spec_tag_weight(FieldTag::ContinentCode) + spec_tag_weight(FieldTag::Country)
            + spec_tag_weight(FieldTag::CountryCode) + spec_tag_weight(FieldTag::Region)
            + spec_tag_weight(FieldTag::RegionName) + spec_tag_weight(FieldTag::City)
            + spec_tag_weight(FieldTag::District) + spec_tag_weight(FieldTag::Zip)
            + spec_tag_weight(FieldTag::Lat) + spec_tag_weight(FieldTag::Lon)
            + spec_tag_weight(FieldTag::Timezone) + spec_tag_weight(FieldTag::Offset)
            + spec_tag_weight(FieldTag::Currency) + spec_tag_weight(FieldTag::Isp)
            + spec_tag_weight(FieldTag::Org) + spec_tag_weight(FieldTag::AsField)
            + spec_tag_weight(FieldTag::Asname) + spec_tag_weight(FieldTag::Reverse)
            + spec_tag_weight(FieldTag::Mobile) + spec_tag_weight(FieldTag::Proxy)
            + spec_tag_weight(FieldTag::Hosting) + spec_tag_weight(FieldTag::Query),
{
    assert(32768u32 | (1u32 << 20) | (1u32 << 21) | (1u32 << 0) | (1u32 << 1) | (1u32 << 2)
        | (1u32 << 3) | (1u32 << 4) | (1u32 << 19) | (1u32 << 5) | (1u32 << 6) | (1u32 << 7)
        | (1u32 << 8) | (1u32 << 25) | (1u32 << 23) | (1u32 << 9) | (1u32 << 10)
        | (1u32 << 11) | (1u32 << 22) | (1u32 << 12) | (1u32 << 16) | (1u32 << 17)
        | (1u32 << 24) | (1u32 << 13)
        == 32768 + (1u32 << 20) + (1u32 << 21) + (1u32 << 0) + (1u32 << 1) + (1u32 << 2)
        + (1u32 << 3) + (1u32 << 4) + (1u32 << 19) + (1u32 << 5) + (1u32 << 6) + (1u32 << 7)
        + (1u32 << 8) + (1u32 << 25) + (1u32 << 23) + (1u32 << 9) + (1u32 << 10)
        + (1u32 << 11) + (1u32 << 22) + (1u32 << 12) + (1u32 << 16) + (1u32 << 17)
        + (1u32 << 24) + (1u32 << 13)) by (bit_vector);
}

} // verus!
