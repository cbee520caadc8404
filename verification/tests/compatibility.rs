use icr_pipeline::request::{decode_request, encode_request, CollateralRequest};

fn requests() -> Vec<CollateralRequest> {
    vec![
        CollateralRequest {
            id: 1,
            user_address: "abc".to_string(),
            created_at: "2025-05-07T17:57:00Z".to_string(),
            collateral_amount_sats: 1_000_000,
            debt_amount: 300,
            btc_price_usd_cents: 6_000_000,
        },
        CollateralRequest {
            id: 0,
            user_address: String::new(),
            created_at: String::new(),
            collateral_amount_sats: 0,
            debt_amount: 0,
            btc_price_usd_cents: 0,
        },
        CollateralRequest {
            id: u32::MAX,
            user_address: "\u{00e9}\u{4e2d}\u{1f680}:user_btc_address".to_string(),
            created_at: "x".repeat(1024),
            collateral_amount_sats: u32::MAX,
            debt_amount: 0x0102_0304,
            btc_price_usd_cents: 0xA0B0_C0D0,
        },
    ]
}

#[test]
fn layout_is_the_fields_serialized_in_order() {
    for request in requests() {
        let fields = (
            request.id,
            request.user_address.clone(),
            request.created_at.clone(),
            request.collateral_amount_sats,
            request.debt_amount,
            request.btc_price_usd_cents,
        );
        let serialized: Vec<u8> = bincode::serialize(&fields).unwrap();
        assert_eq!(encode_request(&request), Ok(serialized));
    }
}

#[test]
fn layout_is_the_frames_written_one_by_one() {
    for request in requests() {
        let mut frames: Vec<u8> = Vec::new();
        frames.extend(bincode::serialize(&request.id).unwrap());
        frames.extend(bincode::serialize(&request.user_address).unwrap());
        frames.extend(bincode::serialize(&request.created_at).unwrap());
        frames.extend(bincode::serialize(&request.collateral_amount_sats).unwrap());
        frames.extend(bincode::serialize(&request.debt_amount).unwrap());
        frames.extend(bincode::serialize(&request.btc_price_usd_cents).unwrap());
        assert_eq!(encode_request(&request), Ok(frames));
    }
}

#[test]
fn decoding_agrees_with_the_deserializer() {
    for request in requests() {
        let bytes = encode_request(&request).unwrap();
        let fields: (u32, String, String, u32, u32, u32) = bincode::deserialize(&bytes).unwrap();
        let decoded = decode_request(&bytes).unwrap();
        assert_eq!(
            fields,
            (
                decoded.id,
                decoded.user_address,
                decoded.created_at,
                decoded.collateral_amount_sats,
                decoded.debt_amount,
                decoded.btc_price_usd_cents
            )
        );
    }
}
