use vstd::prelude::*;

verus! {

/// A record-level setting read from the record's attributes.
#[derive(Clone, Copy, Debug, PartialEq, Eq, Structural)]
pub enum Meta {
    BigEndian,
    LittleEndian,
    Debug,
}

/// The settings of one record.
#[derive(Debug)]
pub struct Config {
    pub struct_name: String,
    pub big_endian: bool,
    pub debug: bool,
}

/// The record declares both byte orders.
#[derive(Clone, Copy, Debug, PartialEq, Eq, Structural)]
pub struct ConfigError;

/// Whether `l` declares both byte orders, which no record may do.
pub open spec fn conflicting_byte_order(l: Seq<Meta>) -> bool {
    l.contains(Meta::LittleEndian) && l.contains(Meta::BigEndian)
}

fn meta_contains(l: &[Meta], m: Meta) -> (r: bool)
    ensures
        r == l@.contains(m),
{
    let mut i: usize = 0;
    while i < l.len()
        invariant
            0 <= i <= l@.len(),
            forall|j: int| 0 <= j < i ==> l@[j] != m,
        decreases l@.len() - i,
    {
        if l[i] == m {
            assert(l@[i as int] == m);
            return true;
        }
        i = i + 1;
    }
    false
}

impl Config {
    /// Reads the settings of record `name` from its attributes. Big-endian is
    /// the default byte order; declaring both orders is an error.
    pub fn from_meta_list(name: String, l: &[Meta]) -> (r: Result<Config, ConfigError>)
        ensures
            r.is_err() == conflicting_byte_order(l@),
            r matches Ok(c) ==> c.struct_name@ == name@
                && c.big_endian == !l@.contains(Meta::LittleEndian)
                && c.debug == l@.contains(Meta::Debug),
    {
        let little = meta_contains(l, Meta::LittleEndian);
        let big = meta_contains(l, Meta::BigEndian);
        if little && big {
            return Err(ConfigError);
        }
        let debug = meta_contains(l, Meta::Debug);
        Ok(Config { struct_name: name, big_endian: !little, debug })
    }
}

} // verus!
