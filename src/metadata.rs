//! The token's descriptor, fixed when the contract is created.
use vstd::prelude::*;

verus! {

/// The version of the metadata standard this token follows.
pub const FT_METADATA_SPEC: &'static str = "ft-1.0.0";

/// The most decimals whose scale, ten to that power, fits in 128 bits.
pub const MAX_DECIMALS: u8 = 38;

/// The icon of the example token, an SVG data URI.
pub const DATA_IMAGE_SVG_NEAR_ICON: &'static str = "data:image/svg+xml,%3C%3Fxml%20version%3D%221.0%22%20encoding%3D%22UTF-8%22%20standalone%3D%22no%22%3F%3E%3Csvg%20xml%3Aspace%3D%22preserve%22%20viewBox%3D%220%200%20562%20562%22%20version%3D%221.1%22%20id%3D%22svg21%22%20%20xmlns%3D%22http%3A%2F%2Fwww.w3.org%2F2000%2Fsvg%22%3E%20%20%3Cpath%20fill%3D%22%2300D8E9%22%20d%3D%22m330%20494-5%202-16%203c-20%206-42%204-63%204l-30-2c-5%200-10%200-14-2-6-4-14-4-20-7-3-2-7-1-9-3-5-6-12-4-17-10-4-4-12-6-18-9l-7-5-10-6-9-9-10-9-7-8c-5-6-11-11-14-18-4-7-10-12-15-18l-7-16-2-4c-4-4-4-10-6-15-2-6-6-12-5-19-6-3-3-10-5-15-3-4-2-10-2-16l-1-56%202-20c1-4%201-10%203-13%203-5%202-9%203-13%202-4%206-8%206-12%200-9%207-14%2010-22%203-10%2010-19%2016-27l12-15%208-8%2014-14%2011-8c3-4%209-4%2011-9l3-2%2017-8%2017-10%2015-5c5-3%2011-1%2015-5%202-2%205-2%207-2%2026-4%2052-3%2077-3%2011%200%2022%202%2033%204%205%201%209%204%2013%206l14%204%2020%209%2020%2011c4%202%206%206%209%208l3%202h3l14%2015%207%207%2010%209%208%2011%208%2012c3%204%208%208%208%2014l5%207%208%2018%206%2013%201%207c3%2011%206%2022%206%2034v19c0%2020%202%2041-4%2060l-6%2025c-3%2012-9%2023-15%2033-5%209-9%2020-18%2027-5%207-10%2015-17%2021l-19%2018-15%2011-26%2016-20%209-11%204m38-294c1-3-2-7%203-9%202-1%203-4%204-6%203-10%203-19-5-27-6-5-13-10-22-10-4%200-5%202-7%203-10%203-13%2011-17%2019H208c0-8%201-7-8-19-3-4-7-6-11-6-8%200-17-2-24%206-4%205-7%2011-9%2017-2%204%201%209%203%2013%201%202%202%205%204%206%205%204%206%208%204%2014-1%204-1%209-5%2013-2%203-1%209-2%2013%200%202%200%205-2%207-3%204-4%209-5%2014l-8%2024-2%204-9%204c-5%203-9%207-10%2013-2%209-3%2018%206%2026%205%205%2010%209%2017%209%206%200%2012%200%2016%205l5%202%2016%2012%2017%2010%2015%2012%2014%208%2014%2010%209%206c-1%2010%205%2017%2014%2023%207%204%2013%201%2020%201%202%200%205-1%207-3l5-6c3-2%203-5%204-8%201-2%204-13%202-14-5-2-2-6-3-8l5-4c6-4%2012-7%2015-12%204-5%2010-7%2014-12%207-8%2017-14%2025-21l3-1c7-1%2014%201%2021-4%205-4%209-7%2011-13l1-13c0-7-6-15-12-18-3-2-6-4-7-7l-2-21c-1-9-2-18-5-27-2-8-2-16-3-25z%22%20id%3D%22path11%22%20%2F%3E%20%20%3Cpath%20fill%3D%22%23041858%22%20d%3D%22m330%20494%2011-4%2020-9%2026-16%2015-11%2019-18c7-6%2012-14%2017-21%209-7%2013-18%2018-27%206-10%2012-21%2015-33l6-25c6-19%204-40%204-60v-19l10%2014%2012%2015%2012%2015%207%208c2%202%205%204%205%208l5%203c4%209%203%2015-7%2022l-19%2013c-4%203-7%207-9%2011-1%203%200%207%201%2010%201%204%206%207%205%2010%200%206-4%2010-9%2013l-8%206%202%201c4%200%209%200%209%205%201%205%201%2010-3%2014-6%206-12%2012-10%2021l5%2017%201%207c1%209-2%2017-9%2023l-7%202c-12%205-24%204-36%202-22-3-44-2-66-1l-40%205-2-1z%22%20id%3D%22path13%22%20%2F%3E%20%20%3Cpath%20d%3D%22m368%20201%203%2024c3%209%204%2018%205%2027l2%2021c1%203%204%205%207%207%206%203%2012%2011%2012%2018l-1%2013c-2%206-6%209-11%2013-7%205-14%203-21%204l-3%201c-8%207-18%2013-25%2021-4%205-10%207-14%2012-3%205-9%208-15%2012l-5%204c1%202-2%206%203%208%202%201-1%2012-2%2014-1%203-1%206-4%208l-5%206c-2%202-5%203-7%203-7%200-13%203-20-1-9-6-15-13-14-23l-9-6-14-10-14-8-15-12-17-10-16-12-5-2c-4-5-10-5-16-5-7%200-12-4-17-9-9-8-8-17-6-26%201-6%205-10%2010-13l9-4%202-4%208-24c1-5%202-10%205-14%202-2%202-5%202-7%201-4%200-10%202-13%204-4%204-9%205-13%202-6%201-10-4-14-2-1-3-4-4-6-2-4-5-9-3-13%202-6%205-12%209-17%207-8%2016-6%2024-6%204%200%208%202%2011%206%209%2012%208%2011%208%2019h116c4-8%207-16%2017-19%202-1%203-3%207-3%209%200%2016%205%2022%2010%208%208%208%2017%205%2027-1%202-2%205-4%206-5%202-2%206-3%2010m-46-21H208c-3%203-4%208-9%209l1%204%205%208c2%205%202%209%206%2013%203%204%203%2010%205%2015l5%208%206%2015c3%206%207%207%2012%208l14%204c1-3%202-5%204-6l12-8c6-6%2011-12%2019-15l1-1%206-7%2014-13%2015-10%207-7-1-5-3-5-5-7m-60%20104%2033%203c12%202%2024%200%2036%203h18c4-11%2014-11%2022-16v-7l-4-14-1-15-1-10-4-14-1-13h-13c-4%200-7-1-10%203l-9%208c-2%203-4%205-9%205%201%207-6%207-9%2010l-10%208-10%209-17%2014-13%2010-1%204%203%2012m-2%2011c-1%204%200%209-8%2011l4%209%202%206%204%2010%203%204%206%2018%203%205%205%208c3%200%208%200%2012%205%201%201%205%201%207-1%205-3%208-9%2015-11v-1l10-10c7-5%2015-10%2020-17l3-2c4-2%207-6%207-9-6-6-7-13-10-18l-28-4c-11-2-23%203-35-3-5-2-13-1-20%200m-19%2019c-7%201-13-1-18-5-4-2-6-6-9-8-1-2-3-3-5-3l-16%202-16%201-6%2015-2%202c-4%201-2%204-2%205l6%206c11%204%2020%2011%2029%2018l8%205%2015%2010%2015%2010%207%206c3%201%207%201%209-2l7-5c6-1%204-5%203-8%200-3-2-6-4-10l-7-14-1-5c-2-4-5-8-6-13-1-3-4-5-7-7m-73-84c-3%2010-4%2021-9%2030l-1%203-4%2013c6%204%2014%205%2016%2013l3%202h7l15-3%2013-1c3-6%204-12%208-15%202-3%204-6%204-9%200-4-2-8-5-12l-11-27c-1-3-1-6-3-8-4-3-4-7-5-11-1-3-4-6-7-8h-11l-1%206-4%2010-3%2015-2%202z%22%20id%3D%22path15%22%20%2F%3E%20%20%3Cpath%20fill%3D%22%2300D8E9%22%20d%3D%22m323%20180%204%207%203%205%201%205-7%207-15%2010-14%2013-6%207-1%201c-8%203-13%209-19%2015l-12%208c-2%201-3%203-4%206l-14-4c-5-1-9-2-12-8l-6-15-5-8c-2-5-2-11-5-15-4-4-4-8-6-13l-5-8-1-4c5-1%206-6%2010-9l4%201h106l4-1zM262%20284l-3-12%201-4%2013-10%2017-14%2010-9%2010-8c3-3%2010-3%209-10%205%200%207-2%209-5l9-8c3-4%206-3%2010-3h13l1%2013%204%2014%201%2010%201%2015%204%2014v7c-8%205-18%205-22%2016h-18c-12-3-24-1-36-3l-33-3zM261%20294c6%200%2014-1%2019%201%2012%206%2024%201%2035%203l28%204c3%205%204%2012%2010%2018%200%203-3%207-7%209l-3%202c-5%207-13%2012-20%2017l-10%2010v1c-7%202-10%208-15%2011-2%202-6%202-7%201-4-5-9-5-12-5l-5-8-3-5-6-18-3-4-4-10-2-6-4-9c8-2%207-7%209-12zM242%20314c2%202%205%204%206%207%201%205%204%209%206%2013l1%205%207%2014c2%204%204%207%204%2010%201%203%203%207-3%208l-7%205c-2%203-6%203-9%202l-7-6-15-10-15-10-8-5c-9-7-18-14-29-18l-6-6c0-1-2-4%202-5l2-2%206-15%2016-1%2016-2c2%200%204%201%205%203%203%202%205%206%209%208%205%204%2011%206%2019%205zM168%20230l2-2%203-15%204-10%201-6h11c3%202%206%205%207%208%201%204%201%208%205%2011%202%202%202%205%203%208l11%2027c3%204%205%208%205%2012%200%203-2%206-4%209-4%203-5%209-8%2015l-13%201-15%203h-7l-3-2c-2-8-10-9-16-13l4-13%201-3c5-9%206-20%209-30z%22%20id%3D%22path17%22%20%2F%3E%20%20%3Cpath%20fill%3D%22%2300D5D5%22%20d%3D%22m323%20180-4%201H213l-4-1h114z%22%20id%3D%22path19%22%20%2F%3E%3C%2Fsvg%3E";

/// Name, symbol and presentation of the token.
#[derive(Debug, Clone, PartialEq, Eq)]
pub struct Metadata {
    pub spec: String,
    pub name: String,
    pub symbol: String,
    pub icon: Option<String>,
    pub reference: Option<String>,
    pub reference_hash: Option<Vec<u8>>,
    pub decimals: u8,
}

/// A descriptor is valid when it names this standard's version, has a name
/// and a symbol, gives a reference and its 32-byte hash together or neither,
/// and has a decimal scale that fits the balance range.
pub open spec fn metadata_valid(m: Metadata) -> bool {
    &&& m.spec@ == FT_METADATA_SPEC@
    &&& m.name@.len() > 0
    &&& m.symbol@.len() > 0
    &&& m.reference.is_some() == m.reference_hash.is_some()
    &&& (m.reference_hash.is_some() ==> m.reference_hash.unwrap()@.len() == 32)
    &&& m.decimals <= MAX_DECIMALS
}

impl Metadata {
    /// Whether the descriptor is valid.
    pub fn is_valid(&self) -> (r: bool)
        ensures
            r == metadata_valid(*self),
    {
        let version = String::from_str(FT_METADATA_SPEC);
        let hash_ok = match &self.reference_hash {
            Some(h) => h.len() == 32,
            None => true,
        };
        self.spec == version && self.name.unicode_len() > 0 && self.symbol.unicode_len() > 0
            && self.reference.is_some() == self.reference_hash.is_some() && hash_ok
            && self.decimals <= MAX_DECIMALS
    }

    /// The example token's descriptor: 24 decimals and the example icon.
    pub fn example() -> (r: Metadata)
        ensures
            metadata_valid(r),
            r.name@ == "Example NEAR fungible token"@,
            r.symbol@ == "EXAMPLE"@,
            r.decimals == 24,
            r.spec@ == FT_METADATA_SPEC@,
            r.icon is Some && r.icon->Some_0@ == DATA_IMAGE_SVG_NEAR_ICON@,
            r.reference is None,
            r.reference_hash is None,
    {
        proof {
            reveal_strlit("ft-1.0.0");
            reveal_strlit("Example NEAR fungible token");
            reveal_strlit("EXAMPLE");
        }
        Metadata {
            spec: String::from_str(FT_METADATA_SPEC),
            name: String::from_str("Example NEAR fungible token"),
            symbol: String::from_str("EXAMPLE"),
            icon: Some(String::from_str(DATA_IMAGE_SVG_NEAR_ICON)),
            reference: None,
            reference_hash: None,
            decimals: 24,
        }
    }
}

} // verus!
