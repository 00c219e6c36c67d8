use bitlab_presale::constants::{
    bitlab_mint, pyth_program, pyth_sol_usd, spl_token_program, system_program, usdc_mint, usdt_mint,
};
use bitlab_presale::key::Key;

fn decoded(s: &str) -> Key {
    let bytes = bs58::decode(s).into_vec().unwrap();
    assert_eq!(bytes.len(), 32);
    Key::from_bytes(&bytes)
}

#[test]
fn official_addresses_match_their_base58_forms() {
    assert_eq!(bitlab_mint(), decoded("CCVYpFakBd4kkwn7G4rvbpaiB5pGJwUpiNwNYrkC5ygQ"));
    assert_eq!(usdc_mint(), decoded("EPjFWdd5AufqSSqeM2qN1xzybapC8G4wEGGkZwyTDt1v"));
    assert_eq!(usdt_mint(), decoded("Es9vMFrzaCERmJfrF4H2FYD4KCoNkY11McCe8BenwNYB"));
    assert_eq!(pyth_program(), decoded("FsJ3A3u2vn5cTVofAjvy6y5kwAB3Aki3PsVaKEP8s4ir"));
    assert_eq!(pyth_sol_usd(), decoded("H6ARHf6YXhGYeQfUzQNGk6rDNnLBQKrenN712K4AQJEG"));
    assert_eq!(spl_token_program(), decoded("TokenkegQfeZyiNwAJbNbGKPFXCWuBvf9Ss623VQ5DA"));
    assert_eq!(system_program(), decoded("11111111111111111111111111111111"));
    assert_eq!(system_program(), Key::default_key());
}

#[test]
fn key_bytes_round_trip() {
    let bytes: Vec<u8> = (0u8..32).collect();
    let k = Key::from_bytes(&bytes);
    assert_eq!(k.w0, 0x0706050403020100);
    assert_eq!(k.w3, 0x1f1e1d1c1b1a1918);
    assert_eq!(k.to_bytes(), bytes);
    let usdc = usdc_mint();
    assert_eq!(bs58::encode(usdc.to_bytes()).into_string(), "EPjFWdd5AufqSSqeM2qN1xzybapC8G4wEGGkZwyTDt1v");
}
