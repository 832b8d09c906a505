use wallet_adapter::ByteField;
use wallet_adapter::WalletAccount;
use wallet_adapter::WalletError;
use wallet_adapter::account::PUBLIC_KEY_FIELD;
use wallet_adapter::ed25519::to_32_bytes;
use wallet_adapter::reflection::same_bytes;

#[test]
fn an_account_keeps_its_handle_and_its_key() {
    let mut key = [0u8; 32];
    key[0] = 9;
    key[31] = 200;
    let account = WalletAccount::new("first", key);
    assert_eq!(*account.handle(), "first");
    assert_eq!(account.public_key(), key);
}

#[test]
fn thirty_two_bytes_become_an_array() {
    let bytes: Vec<u8> = (0u8..32).collect();
    let array = to_32_bytes(&bytes);
    let mut expected = [0u8; 32];
    for (at, byte) in expected.iter_mut().enumerate() {
        *byte = at as u8;
    }
    assert_eq!(array, Ok(expected));
}

#[test]
fn other_lengths_are_not_a_public_key() {
    assert_eq!(to_32_bytes(&[]), Err(WalletError::Expected32ByteLength));
    assert_eq!(to_32_bytes(&[1u8; 31]), Err(WalletError::Expected32ByteLength));
    assert_eq!(to_32_bytes(&[1u8; 33]), Err(WalletError::Expected32ByteLength));
    assert_eq!(to_32_bytes(&[1u8; 64]), Err(WalletError::Expected32ByteLength));
}

#[test]
fn an_account_parses_from_thirty_two_bytes() {
    let bytes: Vec<u8> = (100u8..132).collect();
    let account = WalletAccount::parse(7u32, &ByteField::Bytes(bytes.clone()));
    match account {
        Ok(account) => {
            assert_eq!(*account.handle(), 7);
            assert_eq!(account.public_key().to_vec(), bytes);
        }
        Err(error) => panic!("a good account was refused: {:?}", error),
    }
}

#[test]
fn an_account_without_public_key_fails() {
    let account = WalletAccount::parse(7u32, &ByteField::Missing);
    assert_eq!(account, Err(WalletError::MissingField("publicKey".to_string())));
    assert_eq!(PUBLIC_KEY_FIELD, "publicKey");
}

#[test]
fn an_account_whose_public_key_is_no_byte_array_fails() {
    let account = WalletAccount::parse(7u32, &ByteField::NotBytes);
    assert_eq!(
        account,
        Err(WalletError::JsValueNotUnint8Array("publicKey".to_string()))
    );
}

#[test]
fn an_account_whose_public_key_has_another_length_fails() {
    let short = WalletAccount::parse(7u32, &ByteField::Bytes(vec![1u8; 31]));
    assert_eq!(short, Err(WalletError::Expected32ByteLength));
    let long = WalletAccount::parse(7u32, &ByteField::Bytes(vec![1u8; 33]));
    assert_eq!(long, Err(WalletError::Expected32ByteLength));
    let none = WalletAccount::parse(7u32, &ByteField::Bytes(Vec::new()));
    assert_eq!(none, Err(WalletError::Expected32ByteLength));
}

#[test]
fn byte_fields_give_their_bytes_or_say_what_is_wrong() {
    let held = ByteField::Bytes(vec![1, 2, 3]);
    assert_eq!(held.bytes("name", "place"), Ok(&[1u8, 2, 3][..]));
    assert!(held.is_present());
    assert_eq!(
        ByteField::Missing.bytes("name", "place"),
        Err(WalletError::MissingField("name".to_string()))
    );
    assert!(!ByteField::Missing.is_present());
    assert_eq!(
        ByteField::NotBytes.bytes("name", "place"),
        Err(WalletError::JsValueNotUnint8Array("place".to_string()))
    );
    assert!(ByteField::NotBytes.is_present());
}

#[test]
fn byte_strings_are_the_same_only_byte_for_byte() {
    assert!(same_bytes(b"hello", b"hello"));
    assert!(same_bytes(b"", b""));
    assert!(!same_bytes(b"hello", b"hellp"));
    assert!(!same_bytes(b"hello", b"hell"));
    assert!(!same_bytes(b"hello", b"hello!"));
    assert!(!same_bytes(b"", b"h"));
    assert!(!same_bytes(b"Hello", b"hello"));
}
