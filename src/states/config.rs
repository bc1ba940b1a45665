//! The configuration record of one collection.
use crate::address::Address;
use crate::error::{CustomError, ProgramError};
use crate::states::codec::{
    from, parse_address, parse_text, parse_u16, parse_u8, push_address, push_text, push_u16,
    push_u8, read_address, read_text, read_u16, read_u8, text_bytes, text_fits,
    lemma_address_round_trip, lemma_parsed_text_fits, lemma_text_round_trip, lemma_u16_round_trip, lemma_u8_round_trip,
    u16_bytes,
};
use vstd::prelude::*;

verus! {

/// Royalty rates are in basis points and stay below this bound (100%).
pub const SFBP_LIMIT: u16 = 10000;

#[derive(Debug)]
pub struct CollectionConfig {
    pub name: String,
    pub symbol: String,
    pub uri: String,
    pub auth_pda: Address,
    pub collection_key: Address,
    pub update_auth: Address,
    pub sfbp: u16,
    pub creator_1: Address,
    pub creator_1_cut: u8,
    pub merkle_tree: Address,
}

/// The values a record holds.
pub struct ConfigView {
    pub name: Seq<char>,
    pub symbol: Seq<char>,
    pub uri: Seq<char>,
    pub auth_pda: Seq<u8>,
    pub collection_key: Seq<u8>,
    pub update_auth: Seq<u8>,
    pub sfbp: u16,
    pub creator_1: Seq<u8>,
    pub creator_1_cut: u8,
    pub merkle_tree: Seq<u8>,
}

impl View for CollectionConfig {
    type V = ConfigView;

    open spec fn view(&self) -> ConfigView {
        ConfigView {
            name: self.name@,
            symbol: self.symbol@,
            uri: self.uri@,
            auth_pda: self.auth_pda@,
            collection_key: self.collection_key@,
            update_auth: self.update_auth@,
            sfbp: self.sfbp,
            creator_1: self.creator_1@,
            creator_1_cut: self.creator_1_cut,
            merkle_tree: self.merkle_tree@,
        }
    }
}

/// Whether every text of the record can be stored.
pub open spec fn encodable(c: ConfigView) -> bool {
    text_fits(c.name) && text_fits(c.symbol) && text_fits(c.uri)
}

/// The stored form of a record: its fields in declaration order.
pub open spec fn record_bytes(c: ConfigView) -> Seq<u8> {
    text_bytes(c.name) + (text_bytes(c.symbol) + (text_bytes(c.uri) + (c.auth_pda + (
    c.collection_key + (c.update_auth + (u16_bytes(c.sfbp) + (c.creator_1 + (seq![
        c.creator_1_cut,
    ] + c.merkle_tree))))))))
}

/// Reads a record from the front of `b`; gives it and the bytes after it.
pub open spec fn parse_record(b: Seq<u8>) -> Option<(ConfigView, Seq<u8>)> {
    match parse_text(b) {
        None => None,
        Some((name, b1)) => match parse_text(b1) {
            None => None,
            Some((symbol, b2)) => match parse_text(b2) {
                None => None,
                Some((uri, b3)) => match parse_address(b3) {
                    None => None,
                    Some((auth_pda, b4)) => match parse_address(b4) {
                        None => None,
                        Some((collection_key, b5)) => match parse_address(b5) {
                            None => None,
                            Some((update_auth, b6)) => match parse_u16(b6) {
                                None => None,
                                Some((sfbp, b7)) => match parse_address(b7) {
                                    None => None,
                                    Some((creator_1, b8)) => match parse_u8(b8) {
                                        None => None,
                                        Some((creator_1_cut, b9)) => match parse_address(b9) {
                                            None => None,
                                            Some((merkle_tree, b10)) => Some(
                                                (
                                                    ConfigView {
                                                        name,
                                                        symbol,
                                                        uri,
                                                        auth_pda,
                                                        collection_key,
                                                        update_auth,
                                                        sfbp,
                                                        creator_1,
                                                        creator_1_cut,
                                                        merkle_tree,
                                                    },
                                                    b10,
                                                ),
                                            ),
                                        },
                                    },
                                },
                            },
                        },
                    },
                },
            },
        },
    }
}

/// A stored record reads back as the same record, whatever follows it in
/// its storage.
pub proof fn lemma_record_round_trip(c: CollectionConfig, rest: Seq<u8>)
    requires
        encodable(c@),
    ensures
        parse_record(record_bytes(c@) + rest) == Some((c@, rest)),
{
    let v = c@;
    let t9 = seq![v.creator_1_cut] + v.merkle_tree;
    let t8 = v.creator_1 + t9;
    let t7 = u16_bytes(v.sfbp) + t8;
    let t6 = v.update_auth + t7;
    let t5 = v.collection_key + t6;
    let t4 = v.auth_pda + t5;
    let t3 = text_bytes(v.uri) + t4;
    let t2 = text_bytes(v.symbol) + t3;
    let r9 = v.merkle_tree + rest;
    let r8 = seq![v.creator_1_cut] + r9;
    let r7 = v.creator_1 + r8;
    let r6 = u16_bytes(v.sfbp) + r7;
    let r5 = v.update_auth + r6;
    let r4 = v.collection_key + r5;
    let r3 = v.auth_pda + r4;
    let r2 = text_bytes(v.uri) + r3;
    let r1 = text_bytes(v.symbol) + r2;
    assert(t9 + rest =~= r8);
    assert(t8 + rest =~= r7);
    assert(t7 + rest =~= r6);
    assert(t6 + rest =~= r5);
    assert(t5 + rest =~= r4);
    assert(t4 + rest =~= r3);
    assert(t3 + rest =~= r2);
    assert(t2 + rest =~= r1);
    assert(record_bytes(v) + rest =~= text_bytes(v.name) + r1);
    lemma_text_round_trip(v.name, r1);
    lemma_text_round_trip(v.symbol, r2);
    lemma_text_round_trip(v.uri, r3);
    lemma_address_round_trip(v.auth_pda, r4);
    lemma_address_round_trip(v.collection_key, r5);
    lemma_address_round_trip(v.update_auth, r6);
    lemma_u16_round_trip(v.sfbp, r7);
    lemma_address_round_trip(v.creator_1, r8);
    lemma_u8_round_trip(v.creator_1_cut, r9);
    lemma_address_round_trip(v.merkle_tree, rest);
}

/// A record read from stored bytes can be stored again.
pub proof fn lemma_parsed_record_encodable(b: Seq<u8>)
    requires
        parse_record(b) is Some,
    ensures
        encodable(parse_record(b)->Some_0.0),
{
    let (name, b1) = parse_text(b)->Some_0;
    let (symbol, b2) = parse_text(b1)->Some_0;
    lemma_parsed_text_fits(b);
    lemma_parsed_text_fits(b1);
    lemma_parsed_text_fits(b2);
}

impl CollectionConfig {
    /// Checks a record before it is kept: the royalty rate must stay below
    /// 100%.
    pub fn create(args: CollectionConfig) -> (r: Result<CollectionConfig, CustomError>)
        ensures
            match r {
                Ok(c) => c@ == args@ && args.sfbp < SFBP_LIMIT,
                Err(e) => e == CustomError::InvalidSfbp && args.sfbp >= SFBP_LIMIT,
            },
    {
        if args.sfbp >= SFBP_LIMIT {
            return Err(CustomError::InvalidSfbp);
        }
        Ok(args)
    }

    /// Whether every text of the record can be stored.
    pub fn is_encodable(&self) -> (r: bool)
        ensures
            r == encodable(self@),
    {
        self.name.as_str().as_bytes().len() <= 0xffff_ffffusize && self.symbol.as_str().as_bytes().len()
            <= 0xffff_ffffusize && self.uri.as_str().as_bytes().len() <= 0xffff_ffffusize
    }

    /// The stored form of the record.
    pub fn encode(&self) -> (r: Vec<u8>)
        requires
            encodable(self@),
        ensures
            r@ == record_bytes(self@),
    {
        let mut out: Vec<u8> = Vec::new();
        push_text(&mut out, &self.name);
        push_text(&mut out, &self.symbol);
        push_text(&mut out, &self.uri);
        push_address(&mut out, &self.auth_pda);
        push_address(&mut out, &self.collection_key);
        push_address(&mut out, &self.update_auth);
        push_u16(&mut out, self.sfbp);
        push_address(&mut out, &self.creator_1);
        push_u8(&mut out, self.creator_1_cut);
        push_address(&mut out, &self.merkle_tree);
        assert(out@ =~= record_bytes(self@));
        out
    }

    /// Writes the record at the start of its storage; the bytes after it stay.
    /// Fails, leaving the storage as it was, where the record cannot be stored
    /// or does not fit.
    pub fn save(&self, data: &mut Vec<u8>) -> (r: Result<(), ProgramError>)
        ensures
            r is Ok <==> encodable(self@) && record_bytes(self@).len() <= old(data)@.len(),
            r is Ok ==> final(data)@ == record_bytes(self@) + old(data)@.subrange(
                record_bytes(self@).len() as int,
                old(data)@.len() as int,
            ),
            r is Err ==> r == Err::<(), ProgramError>(ProgramError::InvalidAccountData)
                && final(data)@ == old(data)@,
    {
        if !self.is_encodable() {
            return Err(ProgramError::InvalidAccountData);
        }
        let bytes = self.encode();
        if bytes.len() > data.len() {
            return Err(ProgramError::InvalidAccountData);
        }
        let mut i: usize = 0;
        while i < bytes.len()
            invariant
                0 <= i <= bytes@.len(),
                bytes@.len() <= old(data)@.len(),
                data@.len() == old(data)@.len(),
                forall|j: int| 0 <= j < i ==> data@[j] == bytes@[j],
                forall|j: int| i <= j < data@.len() ==> data@[j] == old(data)@[j],
            decreases bytes@.len() - i,
        {
            data.set(i, bytes[i]);
            i = i + 1;
        }
        assert(data@ =~= bytes@ + old(data)@.subrange(bytes@.len() as int, old(data)@.len() as int));
        Ok(())
    }

    /// Reads a record from the front of `b`, from `pos` on; gives it and the
    /// position after it.
    pub fn decode_from(b: &[u8], pos: usize) -> (r: Option<(CollectionConfig, usize)>)
        requires
            pos <= b@.len(),
        ensures
            match r {
                Some((c, q)) => pos <= q <= b@.len() && parse_record(from(b@, pos as int))
                    == Some((c@, from(b@, q as int))),
                None => parse_record(from(b@, pos as int)) is None,
            },
    {
        let (name, p1) = match read_text(b, pos) {
            Some(x) => x,
            None => return None,
        };
        let (symbol, p2) = match read_text(b, p1) {
            Some(x) => x,
            None => return None,
        };
        let (uri, p3) = match read_text(b, p2) {
            Some(x) => x,
            None => return None,
        };
        let (auth_pda, p4) = match read_address(b, p3) {
            Some(x) => x,
            None => return None,
        };
        let (collection_key, p5) = match read_address(b, p4) {
            Some(x) => x,
            None => return None,
        };
        let (update_auth, p6) = match read_address(b, p5) {
            Some(x) => x,
            None => return None,
        };
        let (sfbp, p7) = match read_u16(b, p6) {
            Some(x) => x,
            None => return None,
        };
        let (creator_1, p8) = match read_address(b, p7) {
            Some(x) => x,
            None => return None,
        };
        let (creator_1_cut, p9) = match read_u8(b, p8) {
            Some(x) => x,
            None => return None,
        };
        let (merkle_tree, p10) = match read_address(b, p9) {
            Some(x) => x,
            None => return None,
        };
        let c = CollectionConfig {
            name,
            symbol,
            uri,
            auth_pda,
            collection_key,
            update_auth,
            sfbp,
            creator_1,
            creator_1_cut,
            merkle_tree,
        };
        Some((c, p10))
    }
}

} // verus!
