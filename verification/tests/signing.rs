use der::{Decode, Encode};
use pkcs8::{DecodePrivateKey, DecodePublicKey, EncodePublicKey};
use p384::ecdsa::signature::{DigestVerifier, Verifier};
use rsa::{PublicKey, PublicKeyParts};
use sha2::Digest;
use x509_cert::ext::pkix::KeyUsages;
use x509_cert::Version;
use x509_util::algorithm_identifier::{
    ecdsa_with_sha384, identifier, AlgorithmIdentifier, SignatureOid, SignatureScheme,
};
use x509_util::cert::{build_extensions, self_sign, SelfSignError};
use x509_util::cli::{
    EcdsaCurve, GetSignerError, HashMode, KeyInput, KeySelector, KeyUsage, RSAKeySize,
    RSASigningMode, SigningArgs,
};
use x509_util::context::Context;
use x509_util::ec_signer::{new_signer, read_key_to_signer, EcKey, EcSigner, P256Signer};
use x509_util::error::{SignerError, X509Error};
use x509_util::extensions::{Extension, ExtensionId, Extensions};
use x509_util::name::Name;
use x509_util::owned_name::OwnedName;
use x509_util::pem::PemOperations;
use x509_util::random_serial;
use x509_util::rsa_signer::{decoded_public_key, signature_or_error, PaddingScheme, RsaSigner};
use x509_util::serial::{exceeds_one, SerialNumber};
use x509_util::signer::{
    certificate_of, signature_of, Signable, Signer, TbsCertificate,
};
use x509_util::subject_public_key_info::SubjectPublicKeyInfo;
use x509_util::time::Time;
use x509_util::validity::Validity;

const RSA_2048_PKCS8: [u8; 1214] = [
    0x30, 0x82, 0x04, 0xba, 0x02, 0x01, 0x00, 0x30, 0x0d, 0x06, 0x09, 0x2a, 0x86, 0x48, 0x86, 0xf7,
    0x0d, 0x01, 0x01, 0x01, 0x05, 0x00, 0x04, 0x82, 0x04, 0xa4, 0x30, 0x82, 0x04, 0xa0, 0x02, 0x01,
    0x00, 0x02, 0x82, 0x01, 0x01, 0x00, 0xcd, 0x2f, 0xc3, 0x37, 0x59, 0xb3, 0xdb, 0x22, 0x60, 0xcf,
    0xd7, 0x61, 0x04, 0xfe, 0xdb, 0xd8, 0x70, 0x30, 0x93, 0xa5, 0xe9, 0xac, 0x90, 0xa0, 0x5b, 0x06,
    0xac, 0x32, 0x2b, 0x71, 0xff, 0xe3, 0x72, 0x88, 0x37, 0x43, 0x63, 0x08, 0x54, 0x3b, 0xeb, 0x5a,
    0xfb, 0x94, 0x8b, 0x8e, 0x27, 0xf3, 0xf4, 0xbb, 0x20, 0x10, 0x8d, 0xdf, 0x7c, 0x51, 0x85, 0x52,
    0xf1, 0x6b, 0xc6, 0xbb, 0xa3, 0x97, 0xfb, 0x85, 0xf1, 0x3e, 0x3a, 0xb7, 0x98, 0xe5, 0xe2, 0xa5,
    0xfc, 0x60, 0x2f, 0x73, 0xac, 0x7d, 0xde, 0x09, 0x96, 0x70, 0x74, 0x83, 0x64, 0xf9, 0x4b, 0x65,
    0xca, 0xda, 0xef, 0xf8, 0xc2, 0xa7, 0xd9, 0xfc, 0x35, 0xbb, 0x51, 0x49, 0x06, 0x37, 0x51, 0x81,
    0x4c, 0xe3, 0x3c, 0xa6, 0xce, 0x00, 0x0f, 0x08, 0x1c, 0x1a, 0xb8, 0x51, 0x00, 0x4f, 0x89, 0xad,
    0x71, 0x63, 0xf9, 0x30, 0x5d, 0xe3, 0x55, 0x51, 0x3a, 0xb6, 0xcf, 0xfc, 0xc3, 0x1b, 0x26, 0xdc,
    0xbe, 0xe9, 0x79, 0x1e, 0xf9, 0xf7, 0xa7, 0xdb, 0xe0, 0x5e, 0x1f, 0x48, 0xcf, 0xfe, 0x03, 0x16,
    0x25, 0xb2, 0xc2, 0x99, 0xc1, 0xc4, 0xdb, 0xdb, 0x8e, 0x0b, 0x68, 0xdb, 0x11, 0x15, 0xbc, 0x86,
    0x0b, 0xdb, 0x37, 0x9a, 0xd0, 0xd1, 0xab, 0x90, 0xbc, 0x83, 0x67, 0xbf, 0xb8, 0xea, 0xc2, 0x34,
    0x73, 0xb6, 0xdb, 0x03, 0xe7, 0xba, 0xdf, 0xc2, 0x91, 0x05, 0x73, 0x4a, 0x2a, 0x42, 0x10, 0x6d,
    0x57, 0xdc, 0x95, 0x9c, 0xf8, 0x56, 0x6e, 0x84, 0x97, 0xb9, 0xca, 0x45, 0x12, 0x0d, 0x26, 0xe3,
    0xe3, 0xef, 0xf0, 0x1c, 0xa3, 0x64, 0x78, 0x61, 0x80, 0xcf, 0x0b, 0xba, 0x13, 0x65, 0x67, 0x8b,
    0x7a, 0xf8, 0x0b, 0x56, 0x19, 0xf9, 0x44, 0x66, 0x64, 0xa3, 0x87, 0xb9, 0xfd, 0xd4, 0x9f, 0x36,
    0xaf, 0x19, 0x7b, 0x7c, 0xbd, 0x79, 0x02, 0x03, 0x01, 0x00, 0x01, 0x02, 0x82, 0x01, 0x00, 0x13,
    0xf8, 0x74, 0x3b, 0x06, 0xc8, 0x6c, 0x39, 0x83, 0x3b, 0xf3, 0x71, 0xea, 0x51, 0x2e, 0x5f, 0x59,
    0x63, 0x06, 0xf9, 0xd8, 0xdd, 0x9e, 0x79, 0x77, 0x06, 0x96, 0x1b, 0xaf, 0x72, 0x11, 0xe6, 0x66,
    0xab, 0x36, 0x9a, 0xc0, 0xd0, 0xaa, 0x97, 0x26, 0xe3, 0xf4, 0xf4, 0xcb, 0x24, 0xef, 0xc3, 0x4d,
    0x24, 0x69, 0xdd, 0x66, 0x9b, 0x93, 0xff, 0x60, 0xb7, 0x37, 0x0f, 0x66, 0xf9, 0x34, 0x15, 0xda,
    0xa9, 0x99, 0x96, 0x75, 0x93, 0x51, 0x46, 0xbd, 0xa9, 0xab, 0x5f, 0xc6, 0xba, 0x8e, 0xd5, 0x34,
    0xd7, 0x50, 0xcc, 0xba, 0xf0, 0x5f, 0x73, 0x6a, 0x98, 0xda, 0x96, 0xb6, 0xd0, 0xca, 0xcc, 0x58,
    0xb9, 0x75, 0x16, 0xd9, 0x55, 0x5e, 0xcd, 0x23, 0x4a, 0x0f, 0x0c, 0x56, 0x66, 0xc3, 0x49, 0xca,
    0xec, 0xbe, 0x84, 0x84, 0xc0, 0x40, 0x84, 0x1d, 0x49, 0xb3, 0xed, 0xb7, 0xaf, 0x13, 0x12, 0x1c,
    0xb8, 0x58, 0xb8, 0xe2, 0x27, 0x4e, 0x5c, 0x16, 0xbc, 0x9c, 0xc3, 0x7e, 0x2e, 0xfc, 0x79, 0x57,
    0xcd, 0xfd, 0x1c, 0x33, 0x06, 0x00, 0xcd, 0xbf, 0x1e, 0x8c, 0xd0, 0xb4, 0xfb, 0x59, 0x91, 0xe9,
    0xc1, 0xa6, 0x29, 0x15, 0x6b, 0x36, 0x79, 0x44, 0x20, 0x01, 0xcc, 0x61, 0x01, 0x9c, 0xce, 0xef,
    0x27, 0x93, 0xb4, 0xce, 0xef, 0x31, 0x5f, 0x06, 0x51, 0x9e, 0xe3, 0x2b, 0xa1, 0xaf, 0x46, 0xdf,
    0xab, 0x59, 0xd7, 0x68, 0x5d, 0x6a, 0x7b, 0xf2, 0x64, 0xa0, 0xc4, 0xbc, 0xbd, 0x6f, 0x7a, 0xd1,
    0xdf, 0x31, 0x54, 0xd5, 0x81, 0x1e, 0xc3, 0xba, 0xec, 0x2d, 0x93, 0x36, 0xa0, 0x3d, 0xcd, 0x5e,
    0x84, 0x00, 0x4d, 0x1a, 0xcf, 0xec, 0xcf, 0x6f, 0x3a, 0xf1, 0x37, 0x2e, 0xd7, 0x52, 0x19, 0x4c,
    0x91, 0x6d, 0x6f, 0x20, 0xd9, 0x19, 0x0f, 0x7d, 0x38, 0xb8, 0xff, 0x20, 0x9f, 0x76, 0x01, 0x02,
    0x81, 0x81, 0x00, 0xf2, 0x6f, 0x30, 0xa7, 0xc9, 0x61, 0xff, 0x8c, 0x0e, 0x07, 0x1d, 0x4e, 0x30,
    0x59, 0x05, 0x2e, 0xba, 0x4e, 0xb6, 0xd5, 0x79, 0x67, 0x92, 0xd2, 0xc8, 0x06, 0x51, 0xff, 0x9d,
    0x5d, 0x34, 0xa0, 0x07, 0x53, 0x60, 0x72, 0xf8, 0xb8, 0xd8, 0x87, 0x7c, 0x0e, 0xe3, 0x73, 0x33,
    0x78, 0x5c, 0xcc, 0x23, 0x2d, 0x9c, 0x28, 0x72, 0x90, 0x2a, 0xd1, 0x10, 0x95, 0x0d, 0xde, 0x4e,
    0xd6, 0xcd, 0x0e, 0x9a, 0xb1, 0x85, 0x12, 0x66, 0x07, 0x0c, 0x94, 0xd7, 0x94, 0x79, 0x69, 0x8a,
    0xac, 0x0f, 0x06, 0xa9, 0xa7, 0x2e, 0x58, 0x6e, 0x85, 0x18, 0xf5, 0x8e, 0xa6, 0x98, 0x4b, 0xe0,
    0x64, 0x80, 0x14, 0x0b, 0x61, 0x97, 0x72, 0x48, 0x1c, 0xb3, 0x33, 0xa3, 0x9d, 0x59, 0xe8, 0x6f,
    0x2b, 0x4d, 0xf5, 0x29, 0x80, 0x4c, 0x29, 0x6e, 0x4b, 0x48, 0x7b, 0x1e, 0xdd, 0x00, 0xa2, 0xc7,
    0x4c, 0x42, 0x01, 0x02, 0x81, 0x81, 0x00, 0xd8, 0xab, 0x01, 0xff, 0x60, 0xe6, 0x06, 0x54, 0xc8,
    0x8c, 0x5d, 0xd7, 0x4e, 0x8d, 0xac, 0x02, 0x36, 0x8e, 0x95, 0xdc, 0xf1, 0xb4, 0x79, 0xf2, 0x66,
    0x23, 0x8a, 0x58, 0x31, 0xdf, 0x17, 0x95, 0xf1, 0xe7, 0x0d, 0xa4, 0xfa, 0x0a, 0xdb, 0x70, 0xc6,
    0x40, 0x59, 0x0c, 0x5f, 0x75, 0xbe, 0x69, 0xc7, 0x6f, 0xf5, 0xb6, 0x64, 0x7b, 0x80, 0x62, 0xc7,
    0xc4, 0x0a, 0xbe, 0xb7, 0x2c, 0xf3, 0xcc, 0xff, 0x09, 0xe9, 0x94, 0x4c, 0x0d, 0xcf, 0x15, 0xab,
    0xba, 0x53, 0x51, 0xf2, 0x65, 0xad, 0x74, 0xdb, 0xdb, 0x2e, 0x5a, 0x22, 0xc6, 0xc5, 0x1c, 0x0a,
    0xc3, 0xfe, 0xd5, 0x6c, 0x58, 0x6f, 0xaa, 0x2c, 0x3d, 0x11, 0x72, 0x6e, 0x94, 0x5d, 0xa2, 0xef,
    0xcb, 0xef, 0xe6, 0xdb, 0x4d, 0x8a, 0x56, 0x3e, 0x23, 0x2f, 0x3e, 0xea, 0x57, 0x54, 0x37, 0x7b,
    0x41, 0x3c, 0x72, 0xea, 0x9b, 0x8b, 0x79, 0x02, 0x81, 0x80, 0x6f, 0x16, 0x40, 0x07, 0x42, 0x21,
    0xe3, 0x84, 0xfb, 0x90, 0x8a, 0xff, 0x1e, 0xec, 0x4b, 0x91, 0xa3, 0xd1, 0x19, 0xba, 0x2b, 0xcd,
    0x27, 0xdb, 0xe9, 0xc7, 0xeb, 0x9e, 0xe3, 0x2e, 0xa8, 0x44, 0x83, 0xd6, 0xd2, 0xa5, 0x1c, 0x0f,
    0x27, 0x38, 0xbd, 0xc1, 0xdc, 0xbb, 0x16, 0xe4, 0x9a, 0x30, 0xf8, 0x15, 0x98, 0x2e, 0x78, 0x80,
    0x52, 0xfe, 0x45, 0x48, 0xe7, 0x77, 0xec, 0x4c, 0x44, 0xdd, 0xe2, 0x48, 0x61, 0x9f, 0x92, 0x9c,
    0xbc, 0x49, 0x1f, 0x97, 0x6b, 0x22, 0xcf, 0x66, 0x13, 0xe4, 0x8b, 0xac, 0x8d, 0x71, 0xfc, 0x02,
    0x84, 0xf3, 0x50, 0x10, 0x4a, 0x4c, 0xca, 0x5f, 0x82, 0xc8, 0xac, 0x86, 0x65, 0x6c, 0xfa, 0x5a,
    0x1c, 0x4b, 0x17, 0x37, 0xac, 0xd0, 0xf2, 0xcf, 0xb7, 0x03, 0x15, 0xa7, 0x32, 0x3e, 0xf1, 0xc9,
    0x11, 0x47, 0x49, 0x57, 0x1f, 0x49, 0x77, 0x65, 0x1c, 0x01, 0x02, 0x81, 0x80, 0x28, 0xf1, 0x27,
    0x8f, 0x7a, 0x5f, 0xfd, 0x12, 0x48, 0x53, 0x3d, 0xe8, 0x51, 0x8f, 0xb3, 0xd1, 0x37, 0x3d, 0xfa,
    0x53, 0xa5, 0xd8, 0xd4, 0xb2, 0x59, 0x5a, 0x9d, 0xe9, 0xcc, 0x82, 0xbb, 0x92, 0x3a, 0x03, 0xcf,
    0x30, 0x3d, 0x8f, 0x8f, 0xa7, 0xdf, 0xce, 0x89, 0x05, 0x2d, 0x84, 0xb2, 0x56, 0x8a, 0xb9, 0x3d,
    0x55, 0x19, 0xe7, 0xbc, 0x7a, 0xee, 0x04, 0xbd, 0x83, 0x0c, 0x5a, 0x12, 0x37, 0xca, 0x79, 0xb5,
    0x09, 0xb0, 0xd5, 0x6b, 0x2c, 0x4d, 0x27, 0x08, 0x57, 0x93, 0xd6, 0x62, 0xd0, 0x92, 0x3a, 0xf8,
    0xa7, 0x4f, 0xaa, 0xff, 0xd4, 0x2c, 0xb4, 0x9c, 0x92, 0xf7, 0xc6, 0x3e, 0x53, 0x89, 0xc8, 0x80,
    0x63, 0x7f, 0x41, 0xc9, 0xef, 0xe0, 0x20, 0x49, 0x54, 0xf6, 0x5b, 0xd0, 0xa8, 0x3b, 0x55, 0xaa,
    0xb7, 0xd8, 0xd0, 0x67, 0xb9, 0x94, 0x30, 0xdf, 0x9b, 0x57, 0x79, 0xcd, 0x01, 0x02, 0x7f, 0x3a,
    0xa1, 0x01, 0x95, 0x7f, 0xe0, 0xb0, 0x8b, 0xe0, 0x92, 0xb1, 0xe5, 0x64, 0x93, 0x92, 0xe5, 0x96,
    0xc0, 0x09, 0x09, 0xf6, 0x3b, 0xf5, 0xc6, 0xfb, 0xb9, 0x60, 0xca, 0xae, 0x95, 0x82, 0xba, 0x54,
    0x3f, 0x35, 0xc2, 0x43, 0x0a, 0x0f, 0x31, 0x08, 0xfc, 0x69, 0xa2, 0x8c, 0x96, 0x5d, 0xea, 0x6c,
    0xf0, 0x81, 0x9a, 0xad, 0xad, 0x76, 0xce, 0x74, 0x50, 0x2d, 0x53, 0x62, 0x49, 0x75, 0x0b, 0x6f,
    0xd8, 0x95, 0xf7, 0x16, 0xf9, 0x4c, 0x0f, 0xeb, 0x37, 0x13, 0x6e, 0x5d, 0x03, 0x6c, 0xdd, 0x7b,
    0x94, 0x5d, 0xd4, 0x9a, 0xbf, 0x19, 0xb6, 0xa2, 0xf0, 0x00, 0xbf, 0x00, 0xac, 0x6b, 0x95, 0x61,
    0x8e, 0x3c, 0x3e, 0x71, 0x54, 0xd8, 0xc8, 0xe6, 0xb6, 0x16, 0xcf, 0x2f, 0x6a, 0xb9, 0x71, 0xf5,
    0x8d, 0x01, 0xc1, 0xc5, 0x82, 0x1d, 0x62, 0xe7, 0x1f, 0x87, 0xec, 0xf7, 0x4b, 0xa5,
];

const P384_PKCS8: [u8; 185] = [
    0x30, 0x81, 0xb6, 0x02, 0x01, 0x00, 0x30, 0x10, 0x06, 0x07, 0x2a, 0x86, 0x48, 0xce, 0x3d, 0x02,
    0x01, 0x06, 0x05, 0x2b, 0x81, 0x04, 0x00, 0x22, 0x04, 0x81, 0x9e, 0x30, 0x81, 0x9b, 0x02, 0x01,
    0x01, 0x04, 0x30, 0x0d, 0x8b, 0x1f, 0x0d, 0x7d, 0xf7, 0x53, 0x42, 0xd6, 0x84, 0x6d, 0xb7, 0xe8,
    0x94, 0x4a, 0x1b, 0x1f, 0x6d, 0x19, 0xfe, 0x9d, 0x3a, 0x7d, 0xec, 0xa5, 0xb1, 0x25, 0xc4, 0xcf,
    0x63, 0x7b, 0xcc, 0x4e, 0xa8, 0xf7, 0x82, 0x69, 0x86, 0x93, 0x28, 0xfd, 0xf0, 0xbd, 0x3d, 0xac,
    0xd4, 0x6d, 0xcd, 0xa1, 0x64, 0x03, 0x62, 0x00, 0x04, 0x10, 0xfb, 0x3e, 0xc7, 0x34, 0x38, 0xf3,
    0xcc, 0x48, 0xf6, 0xa3, 0xdf, 0xc8, 0xc5, 0xa2, 0x63, 0xaf, 0x38, 0xd7, 0xe2, 0xc1, 0x2a, 0x49,
    0x44, 0x56, 0x9f, 0x49, 0x25, 0x12, 0xff, 0x01, 0xe9, 0x7b, 0xb1, 0x74, 0x14, 0x8b, 0xee, 0x71,
    0x28, 0xbb, 0x52, 0x1e, 0xd7, 0x03, 0x01, 0x63, 0xcf, 0x32, 0xd3, 0x0e, 0x23, 0x33, 0x2b, 0xc8,
    0x1f, 0xd6, 0x3f, 0xa5, 0x29, 0x8a, 0x4a, 0x35, 0xd1, 0x68, 0xb1, 0x0f, 0xb1, 0x6e, 0xc1, 0x31,
    0x00, 0x00, 0x72, 0xa8, 0xa7, 0xf8, 0xeb, 0x83, 0xe3, 0x9e, 0xa6, 0x34, 0x6c, 0x82, 0x48, 0xee,
    0x1c, 0x1a, 0x72, 0x00, 0x99, 0x0f, 0x96, 0xdb, 0xb6,
];

fn p384_signer() -> EcSigner {
    let pem = der::pem::encode_string("PRIVATE KEY", der::pem::LineEnding::LF, &P384_PKCS8)
        .unwrap();
    read_key_to_signer(&pem, EcdsaCurve::P384).unwrap()
}

fn rsa_signer(mode: RSASigningMode, hash: HashMode) -> RsaSigner {
    RsaSigner::from_pkcs8_der(&RSA_2048_PKCS8, mode, hash).unwrap()
}

fn validity() -> x509_util::time::Validity {
    let validity: Validity = (1_735_689_600_000..2_051_222_400_000).into();
    validity.encode().unwrap()
}

fn ca_extensions<'a>(
    context: &'a Context,
    own: SubjectPublicKeyInfo<'a>,
    issuer: SubjectPublicKeyInfo<'a>,
    path_len: Option<u8>,
) -> Vec<Extension<'a>> {
    vec![
        Extensions::basic_constraints(context, true, true, path_len).unwrap(),
        Extensions::key_usage(context, true, &[KeyUsages::KeyCertSign]).unwrap(),
        Extensions::authority_key_identifier(context, false, issuer).unwrap(),
        Extensions::subject_key_identifier(context, false, own).unwrap(),
    ]
}

fn ca_tbs<'a>(context: &'a Context, signer: &EcSigner, serial: &[u8]) -> TbsCertificate<'a> {
    let name = Name::from_pairs(context, &[("C", "US"), ("ST", "CA"), ("CN", "ca")]).unwrap();
    let spki = signer.subject_public_key_info(context).unwrap();
    TbsCertificate {
        version: Version::V3,
        serial_number: SerialNumber::from_bytes(context, serial).unwrap(),
        signature: ecdsa_with_sha384(),
        issuer: name.clone(),
        validity: validity(),
        subject: name,
        subject_public_key_info: spki,
        extensions: Some(ca_extensions(context, spki, spki, Some(1))),
    }
}

fn key_id_of<'a>(cert: &x509_cert::Certificate<'a>, authority: bool) -> Vec<u8> {
    if authority {
        let (_, aki): (bool, x509_cert::ext::pkix::AuthorityKeyIdentifier) =
            cert.tbs_certificate.get().unwrap().unwrap();
        aki.key_identifier.unwrap().as_bytes().to_vec()
    } else {
        let (_, ski): (bool, x509_cert::ext::pkix::SubjectKeyIdentifier) =
            cert.tbs_certificate.get().unwrap().unwrap();
        ski.0.as_bytes().to_vec()
    }
}

#[test]
fn self_signed_certificate() {
    let context = Context::new();
    let signer = p384_signer();
    let tbs = ca_tbs(&context, &signer, &[0x01, 0x02, 0x03]);
    let certificate = tbs.sign(&context, &signer).unwrap();
    let der = certificate.to_der().unwrap();

    let parsed = x509_cert::Certificate::from_der(&der).unwrap();
    assert_eq!(parsed.tbs_certificate.version, Version::V3);
    assert_eq!(parsed.tbs_certificate.issuer, parsed.tbs_certificate.subject);
    assert_eq!(
        parsed.tbs_certificate.subject.to_string(),
        "C=US,STATEORPROVINCENAME=CA,CN=ca"
    );
    assert_eq!(key_id_of(&parsed, true), key_id_of(&parsed, false));
    assert_eq!(key_id_of(&parsed, true).len(), 20);
    assert_eq!(parsed.signature_algorithm, parsed.tbs_certificate.signature);
    assert_eq!(
        parsed.signature_algorithm.oid,
        const_oid::db::rfc5912::ECDSA_WITH_SHA_384
    );

    let (critical, constraints): (bool, x509_cert::ext::pkix::BasicConstraints) =
        parsed.tbs_certificate.get().unwrap().unwrap();
    assert!(critical);
    assert!(constraints.ca);
    assert_eq!(constraints.path_len_constraint, Some(1));
    let (critical, usage): (bool, x509_cert::ext::pkix::KeyUsage) =
        parsed.tbs_certificate.get().unwrap().unwrap();
    assert!(critical);
    assert_eq!(usage.0, flagset::FlagSet::from(KeyUsages::KeyCertSign));

    // assembled twice from the same inputs, the certificate is the same
    let again = ca_tbs(&context, &signer, &[0x01, 0x02, 0x03]);
    assert_eq!(again.to_der().unwrap(), tbs.to_der().unwrap());
    let second = again.sign(&context, &signer).unwrap();
    assert_eq!(
        second.tbs_certificate.to_der().unwrap(),
        certificate.tbs_certificate.to_der().unwrap()
    );
    assert_eq!(second.to_der().unwrap(), der);
}

#[test]
fn to_be_signed_der_is_that_of_x509_cert() {
    let context = Context::new();
    let signer = p384_signer();
    let tbs = ca_tbs(&context, &signer, &[0x00, 0x9a, 0x01]);
    let spki_der = tbs.subject_public_key_info.as_der();
    let spki = spki::SubjectPublicKeyInfo::from_der(spki_der).unwrap();
    let ident = sha1::Sha1::digest(spki.subject_public_key).to_vec();
    let octets = der::asn1::OctetStringRef::new(&ident).unwrap();

    let name_der = tbs.subject.to_der().unwrap();
    let name = x509_cert::name::Name::from_der(&name_der).unwrap();
    let bc = x509_cert::ext::pkix::BasicConstraints {
        ca: true,
        path_len_constraint: Some(1),
    }
    .to_vec()
    .unwrap();
    let ku = flagset::FlagSet::from(KeyUsages::KeyCertSign).to_vec().unwrap();
    let aki = x509_cert::ext::pkix::AuthorityKeyIdentifier {
        key_identifier: Some(octets),
        authority_cert_issuer: None,
        authority_cert_serial_number: None,
    }
    .to_vec()
    .unwrap();
    let ski = x509_cert::ext::pkix::SubjectKeyIdentifier(octets).to_vec().unwrap();
    let expected = x509_cert::TbsCertificate {
        version: Version::V3,
        serial_number: der::asn1::UIntRef::new(&[0x00, 0x9a, 0x01]).unwrap(),
        signature: spki::AlgorithmIdentifier {
            oid: const_oid::db::rfc5912::ECDSA_WITH_SHA_384,
            parameters: None,
        },
        issuer: name.clone(),
        validity: x509_cert::time::Validity {
            not_before: x509_cert::time::Time::UtcTime(
                der::asn1::UtcTime::from_unix_duration(core::time::Duration::from_secs(
                    1_735_689_600,
                ))
                .unwrap(),
            ),
            not_after: x509_cert::time::Time::UtcTime(
                der::asn1::UtcTime::from_unix_duration(core::time::Duration::from_secs(
                    2_051_222_400,
                ))
                .unwrap(),
            ),
        },
        subject: name,
        subject_public_key_info: spki,
        issuer_unique_id: None,
        subject_unique_id: None,
        extensions: Some(vec![
            x509_cert::ext::Extension {
                extn_id: const_oid::db::rfc5280::ID_CE_BASIC_CONSTRAINTS,
                critical: true,
                extn_value: &bc,
            },
            x509_cert::ext::Extension {
                extn_id: const_oid::db::rfc5280::ID_CE_KEY_USAGE,
                critical: true,
                extn_value: &ku,
            },
            x509_cert::ext::Extension {
                extn_id: const_oid::db::rfc5280::ID_CE_AUTHORITY_KEY_IDENTIFIER,
                critical: false,
                extn_value: &aki,
            },
            x509_cert::ext::Extension {
                extn_id: const_oid::db::rfc5280::ID_CE_SUBJECT_KEY_IDENTIFIER,
                critical: false,
                extn_value: &ski,
            },
        ]),
    };
    assert_eq!(tbs.to_der().unwrap(), expected.to_vec().unwrap());

    let certificate = tbs.sign(&context, &signer).unwrap();
    let whole = x509_cert::Certificate {
        tbs_certificate: expected,
        signature_algorithm: spki::AlgorithmIdentifier {
            oid: const_oid::db::rfc5912::ECDSA_WITH_SHA_384,
            parameters: None,
        },
        signature: der::asn1::BitStringRef::from_bytes(certificate.signature).unwrap(),
    };
    assert_eq!(certificate.to_der().unwrap(), whole.to_vec().unwrap());
}

#[test]
fn leaf_certificate() {
    let context = Context::new();
    let ca_signer = p384_signer();
    let ca = ca_tbs(&context, &ca_signer, &[0x11])
        .sign(&context, &ca_signer)
        .unwrap();

    let leaf_key = rsa_signer(RSASigningMode::Pkcs1v15, HashMode::SHA512);
    let leaf_spki = leaf_key.subject_public_key_info(&context).unwrap();
    let ca_spki = ca_signer.subject_public_key_info(&context).unwrap();
    let tbs = TbsCertificate {
        version: Version::V3,
        serial_number: random_serial(&context).unwrap(),
        signature: ca_signer.signature_algorithm().unwrap(),
        issuer: ca.tbs_certificate.subject.clone(),
        validity: validity(),
        subject: Name::from_pairs(&context, &[("C", "US"), ("ST", "CA"), ("CN", "leafy")])
            .unwrap(),
        subject_public_key_info: leaf_spki,
        extensions: Some(ca_extensions(&context, leaf_spki, ca_spki, None)),
    };
    let leaf = tbs.sign(&context, &ca_signer).unwrap();

    let ca_der = ca.to_der().unwrap();
    let leaf_der = leaf.to_der().unwrap();
    let ca_parsed = x509_cert::Certificate::from_der(&ca_der).unwrap();
    let leaf_parsed = x509_cert::Certificate::from_der(&leaf_der).unwrap();

    assert_eq!(key_id_of(&leaf_parsed, true), key_id_of(&ca_parsed, false));
    assert_ne!(key_id_of(&leaf_parsed, false), key_id_of(&ca_parsed, false));
    assert_eq!(
        leaf_parsed.tbs_certificate.issuer.to_vec().unwrap(),
        ca_parsed.tbs_certificate.subject.to_vec().unwrap()
    );
    assert_eq!(
        leaf.tbs_certificate.issuer.to_der().unwrap(),
        ca.tbs_certificate.subject.to_der().unwrap()
    );
    assert_eq!(
        leaf_parsed.tbs_certificate.subject.to_string(),
        "C=US,STATEORPROVINCENAME=CA,CN=leafy"
    );
    assert_eq!(
        leaf_parsed.tbs_certificate.subject_public_key_info,
        spki::SubjectPublicKeyInfo::from_der(leaf_spki.as_der()).unwrap()
    );

    // the authority's key verifies the leaf
    let key = p384::ecdsa::VerifyingKey::from_public_key_der(ca_spki.as_der()).unwrap();
    let signature = p384::ecdsa::Signature::from_der(leaf.signature).unwrap();
    assert!(key
        .verify(&leaf.tbs_certificate.to_der().unwrap(), &signature)
        .is_ok());
}

fn small_tbs<'a, S: Signer>(context: &'a Context, signer: &S) -> TbsCertificate<'a> {
    let name = Name::from_pairs(context, &[("CN", "x")]).unwrap();
    TbsCertificate {
        version: Version::V3,
        serial_number: random_serial(context).unwrap(),
        signature: signer.signature_algorithm().unwrap(),
        issuer: name.clone(),
        validity: validity(),
        subject: name,
        subject_public_key_info: signer.subject_public_key_info(context).unwrap(),
        extensions: None,
    }
}

fn check_rsa(mode: RSASigningMode, hash: HashMode) {
    let context = Context::new();
    let signer = rsa_signer(mode, hash);
    let tbs = small_tbs(&context, &signer);
    let certificate = tbs.sign(&context, &signer).unwrap();
    let scheme = match mode {
        RSASigningMode::Pkcs1v15 => SignatureScheme::RsaPkcs1v15,
        RSASigningMode::Pss => SignatureScheme::RsaPss,
    };
    let registered = identifier(scheme, hash).unwrap().to_der().unwrap();
    assert_eq!(certificate.signature_algorithm.to_der().unwrap(), registered);
    assert_eq!(
        certificate.tbs_certificate.signature.to_der().unwrap(),
        registered
    );

    let message = certificate.tbs_certificate.to_der().unwrap();
    let spki = certificate.tbs_certificate.subject_public_key_info.as_der();
    let key = rsa::RsaPublicKey::from_public_key_der(spki).unwrap();
    let (digest, right, wrong) = match (mode, hash) {
        (RSASigningMode::Pkcs1v15, HashMode::SHA256) => (
            sha2::Sha256::digest(&message).to_vec(),
            rsa::PaddingScheme::new_pkcs1v15_sign::<sha2::Sha256>(),
            rsa::PaddingScheme::new_pss::<sha2::Sha256>(),
        ),
        (RSASigningMode::Pkcs1v15, HashMode::SHA384) => (
            sha2::Sha384::digest(&message).to_vec(),
            rsa::PaddingScheme::new_pkcs1v15_sign::<sha2::Sha384>(),
            rsa::PaddingScheme::new_pss::<sha2::Sha384>(),
        ),
        (RSASigningMode::Pkcs1v15, HashMode::SHA512) => (
            sha2::Sha512::digest(&message).to_vec(),
            rsa::PaddingScheme::new_pkcs1v15_sign::<sha2::Sha512>(),
            rsa::PaddingScheme::new_pss::<sha2::Sha512>(),
        ),
        (RSASigningMode::Pss, HashMode::SHA256) => (
            sha2::Sha256::digest(&message).to_vec(),
            rsa::PaddingScheme::new_pss_with_salt::<sha2::Sha256>(32),
            rsa::PaddingScheme::new_pkcs1v15_sign::<sha2::Sha256>(),
        ),
        (RSASigningMode::Pss, HashMode::SHA384) => (
            sha2::Sha384::digest(&message).to_vec(),
            rsa::PaddingScheme::new_pss_with_salt::<sha2::Sha384>(48),
            rsa::PaddingScheme::new_pkcs1v15_sign::<sha2::Sha384>(),
        ),
        (RSASigningMode::Pss, HashMode::SHA512) => (
            sha2::Sha512::digest(&message).to_vec(),
            rsa::PaddingScheme::new_pss_with_salt::<sha2::Sha512>(64),
            rsa::PaddingScheme::new_pkcs1v15_sign::<sha2::Sha512>(),
        ),
    };
    assert_eq!(signer.digest_data(&message), digest);
    assert!(key.verify(right, &digest, certificate.signature).is_ok());
    assert!(key.verify(wrong, &digest, certificate.signature).is_err());
    assert_eq!(certificate.signature.len(), 256);
}

#[test]
fn rsa_signers_sign_with_the_algorithm_they_name() {
    for mode in [RSASigningMode::Pkcs1v15, RSASigningMode::Pss] {
        for hash in [HashMode::SHA256, HashMode::SHA384, HashMode::SHA512] {
            check_rsa(mode, hash);
        }
    }
}

#[test]
fn rsa_padding_scheme_of_mode_and_hash() {
    assert_eq!(
        rsa_signer(RSASigningMode::Pkcs1v15, HashMode::SHA384).as_padding_scheme(),
        PaddingScheme::Pkcs1v15Sign { hash: HashMode::SHA384 }
    );
    assert_eq!(
        rsa_signer(RSASigningMode::Pss, HashMode::SHA256).as_padding_scheme(),
        PaddingScheme::Pss { hash: HashMode::SHA256, salt_len: 32 }
    );
    assert_eq!(
        rsa_signer(RSASigningMode::Pss, HashMode::SHA384).as_padding_scheme(),
        PaddingScheme::Pss { hash: HashMode::SHA384, salt_len: 48 }
    );
    assert_eq!(
        rsa_signer(RSASigningMode::Pss, HashMode::SHA512).as_padding_scheme(),
        PaddingScheme::Pss { hash: HashMode::SHA512, salt_len: 64 }
    );
}

#[test]
fn pss_salt_is_as_long_as_the_hash() {
    // A signature with a salt of another length does not verify against the
    // length that the identifier names, so the signer's does.
    let context = Context::new();
    let signer = rsa_signer(RSASigningMode::Pss, HashMode::SHA256);
    let message = b"message";
    let signature = signer.sign(message).unwrap();
    let spki = signer.subject_public_key_info(&context).unwrap();
    let key = rsa::RsaPublicKey::from_public_key_der(spki.as_der()).unwrap();
    let digest = sha2::Sha256::digest(message).to_vec();
    assert!(key
        .verify(
            rsa::PaddingScheme::new_pss_with_salt::<sha2::Sha256>(32),
            &digest,
            &signature
        )
        .is_ok());
    // two signatures differ: the salt is random
    assert_ne!(signer.sign(message).unwrap(), signature);
}

#[test]
fn pkcs1v15_signature_is_the_same_each_time() {
    let signer = rsa_signer(RSASigningMode::Pkcs1v15, HashMode::SHA256);
    assert_eq!(signer.sign(b"abc").unwrap(), signer.sign(b"abc").unwrap());
    assert_ne!(signer.sign(b"abc").unwrap(), signer.sign(b"abd").unwrap());
}

#[test]
fn ecdsa_signers_sign_with_the_algorithm_they_name() {
    let context = Context::new();

    let signer = p384_signer();
    let certificate = small_tbs(&context, &signer).sign(&context, &signer).unwrap();
    assert_eq!(certificate.signature_algorithm.oid, SignatureOid::EcdsaWithSha384);
    assert!(certificate.signature_algorithm.parameters.is_none());
    assert_eq!(
        certificate.tbs_certificate.signature.oid,
        SignatureOid::EcdsaWithSha384
    );
    let message = certificate.tbs_certificate.to_der().unwrap();
    let spki = certificate.tbs_certificate.subject_public_key_info.as_der();
    let key = p384::ecdsa::VerifyingKey::from_public_key_der(spki).unwrap();
    let signature = p384::ecdsa::Signature::from_der(certificate.signature).unwrap();
    {
        assert!(key.verify(&message, &signature).is_ok());
        assert!(key.verify(b"another message", &signature).is_err());
    }
    // the signature is made over the SHA-384 digest
    {
        assert!(key
            .verify_digest(sha2::Sha384::new_with_prefix(&message), &signature)
            .is_ok());
    }

    let signer = new_signer(EcdsaCurve::P256).unwrap();
    let certificate = small_tbs(&context, &signer).sign(&context, &signer).unwrap();
    assert_eq!(certificate.signature_algorithm.oid, SignatureOid::EcdsaWithSha256);
    let message = certificate.tbs_certificate.to_der().unwrap();
    let spki = certificate.tbs_certificate.subject_public_key_info.as_der();
    let key = p256::ecdsa::VerifyingKey::from_public_key_der(spki).unwrap();
    let signature = p256::ecdsa::Signature::from_der(certificate.signature).unwrap();
    {
        assert!(key
            .verify_digest(sha2::Sha256::new_with_prefix(&message), &signature)
            .is_ok());
    }
}

#[test]
fn ecdsa_signature_is_the_same_each_time() {
    let signer = p384_signer();
    let first = signer.sign(b"abc").unwrap();
    assert_eq!(first, signer.sign(b"abc").unwrap());
    assert_ne!(first, signer.sign(b"abd").unwrap());
    // DER: a sequence of two integers
    assert_eq!(first[0], 0x30);
    assert!(p384::ecdsa::Signature::from_der(&first).is_ok());
    assert_eq!(signer.to_pkcs8_der(), P384_PKCS8.as_slice().to_vec());
}

#[test]
fn ec_keys_keep_their_curve() {
    let key = P256Signer::random().unwrap();
    let der = key.to_pkcs8_der();
    let public = key.pubkey_bytes().unwrap();
    assert!(p256::ecdsa::VerifyingKey::from_public_key_der(&public).is_ok());
    let pem = der::pem::encode_string("PRIVATE KEY", der::pem::LineEnding::LF, &der).unwrap();
    let again = P256Signer::from_pkcs8_pem(&pem).unwrap();
    assert_eq!(again.to_pkcs8_der(), der);
    assert_eq!(again.pubkey_bytes().unwrap(), public);
    assert_eq!(again.sign(b"m").unwrap(), key.sign(b"m").unwrap());

    // a key on one curve is no key on the other
    assert!(matches!(
        read_key_to_signer(&pem, EcdsaCurve::P384),
        Err(SignerError::Pkcs8(_))
    ));
    assert!(read_key_to_signer(&pem, EcdsaCurve::P256).is_ok());
    assert!(matches!(
        read_key_to_signer("no key", EcdsaCurve::P256),
        Err(SignerError::Pkcs8(_))
    ));
}

#[test]
fn pem_text_of_a_certificate() {
    let context = Context::new();
    let signer = p384_signer();
    let certificate = ca_tbs(&context, &signer, &[0x05])
        .sign(&context, &signer)
        .unwrap();
    let pem = certificate.to_pem().unwrap();
    assert!(pem.starts_with("-----BEGIN CERTIFICATE-----\r\n"));
    assert!(pem.ends_with("-----END CERTIFICATE-----\r\n"));
    for line in pem.split("\r\n") {
        assert!(line.len() <= 64);
        assert!(!line.contains('\n'));
    }
    let (label, document) = der::Document::from_pem(&pem).unwrap();
    assert_eq!(label, "CERTIFICATE");
    assert_eq!(document.as_bytes(), &certificate.to_der().unwrap()[..]);
}

struct Broken {
    fail_sign: bool,
}

impl Signer for Broken {
    fn scheme(&self) -> SignatureScheme {
        SignatureScheme::Ecdsa
    }

    fn hash(&self) -> HashMode {
        HashMode::SHA384
    }

    fn signs(&self, _data: vstd::seq::Seq<u8>, _signature: vstd::seq::Seq<u8>) -> bool {
        true
    }

    fn has_public_key(&self, _encoding: vstd::seq::Seq<u8>) -> bool {
        false
    }

    fn sign(&self, data: &[u8]) -> Result<Vec<u8>, SignerError> {
        if self.fail_sign {
            Err(SignerError::Other("the device is gone".to_string()))
        } else {
            Ok(data[..4].to_vec())
        }
    }

    fn signature_algorithm(&self) -> Result<AlgorithmIdentifier, SignerError> {
        if self.fail_sign {
            Ok(ecdsa_with_sha384())
        } else {
            Err(SignerError::Other("no algorithm".to_string()))
        }
    }

    fn subject_public_key_info<'b>(
        &self,
        _context: &'b Context,
    ) -> Result<SubjectPublicKeyInfo<'b>, SignerError> {
        Err(SignerError::Other("no key".to_string()))
    }
}

#[test]
fn failure_of_the_signer_is_wrapped() {
    let context = Context::new();
    let signer = p384_signer();
    let tbs = ca_tbs(&context, &signer, &[0x07]);

    match tbs.sign(&context, &Broken { fail_sign: true }) {
        Err(X509Error::ErrorSigning(SignerError::Other(cause))) => {
            assert_eq!(cause, "the device is gone")
        }
        other => panic!("{:?}", other),
    }
    match tbs.sign(&context, &Broken { fail_sign: false }) {
        Err(X509Error::ErrorSigning(SignerError::Other(cause))) => {
            assert_eq!(cause, "no algorithm")
        }
        other => panic!("{:?}", other),
    }
}

#[test]
fn steps_of_the_assembly() {
    let context = Context::new();
    let signer = p384_signer();
    let tbs = ca_tbs(&context, &signer, &[0x07]);

    let signature = signature_of(&context, Ok(vec![1, 2, 3])).unwrap();
    assert_eq!(signature, &[1, 2, 3]);
    assert!(matches!(
        signature_of(&context, Err(SignerError::Other("x".to_string()))),
        Err(X509Error::ErrorSigning(SignerError::Other(_)))
    ));

    let certificate = certificate_of(&tbs, signature, Ok(ecdsa_with_sha384())).unwrap();
    assert_eq!(certificate.signature, &[1, 2, 3]);
    assert_eq!(certificate.signature_algorithm.oid, SignatureOid::EcdsaWithSha384);
    assert_eq!(
        certificate.tbs_certificate.to_der().unwrap(),
        tbs.to_der().unwrap()
    );
    assert!(matches!(
        certificate_of(&tbs, signature, Err(SignerError::Other("y".to_string()))),
        Err(X509Error::ErrorSigning(SignerError::Other(_)))
    ));
}

#[test]
fn a_field_that_cannot_be_encoded_stops_the_signing() {
    let context = Context::new();
    let signer = p384_signer();
    let mut tbs = ca_tbs(&context, &signer, &[0x07]);
    tbs.validity.not_before = Time::UtcTime(u64::MAX);
    // the encoding fails before the signer is asked
    assert!(matches!(
        tbs.sign(&context, &Broken { fail_sign: true }),
        Err(X509Error::DERError(_))
    ));
    assert!(matches!(tbs.to_der(), Err(X509Error::DERError(_))));
}

fn args(name: &str, ca: bool, usages: Option<Vec<KeyUsage>>) -> SigningArgs {
    SigningArgs {
        output: None,
        key: KeySelector { new_key: None, key: Some("key".to_string()) },
        validity: x509_util::cli::Validity {
            not_before: 1_735_689_600_000,
            not_after: 2_682_374_400_000,
        },
        name: OwnedName::parse(name).unwrap(),
        ca,
        ca_pathlen: Some(2),
        usages,
    }
}

#[test]
fn self_sign_builds_and_signs() {
    let context = Context::new();
    let signer = p384_signer();
    let asked = args(
        "C=US, ST=\"CA Minor\", X=y, CN=ca",
        true,
        Some(vec![KeyUsage::KeyCertSign, KeyUsage::CRLSign]),
    );
    let certificate = self_sign(&context, &signer, &asked).unwrap();
    let der = certificate.to_der().unwrap();
    let parsed = x509_cert::Certificate::from_der(&der).unwrap();
    let tbs = &parsed.tbs_certificate;

    assert_eq!(tbs.version, Version::V3);
    assert_eq!(tbs.subject.to_string(), "C=US,STATEORPROVINCENAME=CA Minor,CN=ca");
    assert_eq!(tbs.issuer, tbs.subject);
    assert!(matches!(tbs.validity.not_before, x509_cert::time::Time::UtcTime(_)));
    assert!(matches!(tbs.validity.not_after, x509_cert::time::Time::GeneralTime(_)));
    assert_eq!(tbs.validity.not_before.to_unix_duration().as_secs(), 1_735_689_600);
    assert_eq!(tbs.validity.not_after.to_unix_duration().as_secs(), 2_682_374_400);
    assert_eq!(tbs.signature, parsed.signature_algorithm);
    assert!(tbs.serial_number.as_bytes().len() <= 32);

    let extensions = tbs.extensions.as_ref().unwrap();
    let ids: Vec<String> = extensions.iter().map(|e| e.extn_id.to_string()).collect();
    assert_eq!(ids, vec!["2.5.29.19", "2.5.29.35", "2.5.29.14", "2.5.29.15"]);
    let critical: Vec<bool> = extensions.iter().map(|e| e.critical).collect();
    assert_eq!(critical, vec![true, false, false, true]);
    let (_, constraints): (bool, x509_cert::ext::pkix::BasicConstraints) =
        tbs.get().unwrap().unwrap();
    assert!(constraints.ca);
    assert_eq!(constraints.path_len_constraint, Some(2));
    let (_, usage): (bool, x509_cert::ext::pkix::KeyUsage) = tbs.get().unwrap().unwrap();
    assert_eq!(usage.0, KeyUsages::KeyCertSign | KeyUsages::CRLSign);
    assert_eq!(key_id_of(&parsed, true), key_id_of(&parsed, false));

    let listed = [
        ExtensionId::BasicConstraints,
        ExtensionId::AuthorityKeyIdentifier,
        ExtensionId::SubjectKeyIdentifier,
        ExtensionId::KeyUsage,
    ];
    let own: Vec<ExtensionId> = certificate
        .tbs_certificate
        .extensions
        .as_ref()
        .unwrap()
        .iter()
        .map(|e| e.extn_id)
        .collect();
    assert_eq!(own, listed.to_vec());
}

#[test]
fn self_sign_without_usages_and_not_critical() {
    let context = Context::new();
    let signer = rsa_signer(RSASigningMode::Pss, HashMode::SHA256);
    let certificate = self_sign(&context, &signer, &args("CN=me", false, None)).unwrap();
    let extensions = certificate.tbs_certificate.extensions.as_ref().unwrap();
    assert_eq!(extensions.len(), 3);
    assert_eq!(extensions[0].extn_id, ExtensionId::BasicConstraints);
    assert!(!extensions[0].critical);
    assert_eq!(certificate.signature_algorithm.oid, SignatureOid::RsassaPss);
    assert_eq!(certificate.tbs_certificate.signature.oid, SignatureOid::RsassaPss);
    assert_eq!(
        certificate.tbs_certificate.signature.parameters,
        certificate.signature_algorithm.parameters
    );
}

#[test]
fn self_sign_fails_as_its_parts_do() {
    let context = Context::new();
    let signer = p384_signer();
    assert!(matches!(
        self_sign(&context, &signer, &args("CN=me", true, Some(vec![]))),
        Err(SelfSignError::X509(X509Error::FailedEncodingFlagset))
    ));

    let mut early = args("CN=me", true, None);
    early.validity.not_before = -1;
    assert!(matches!(
        self_sign(&context, &signer, &early),
        Err(SelfSignError::X509(X509Error::FailedBuildingNotBefore))
    ));
    let mut late = args("CN=me", true, None);
    late.validity.not_after = i64::MAX;
    assert!(matches!(
        self_sign(&context, &signer, &late),
        Err(SelfSignError::X509(X509Error::FailedBuildingNotAfter))
    ));

    assert!(matches!(
        self_sign(&context, &Broken { fail_sign: true }, &args("CN=me", true, None)),
        Err(SelfSignError::Signer(SignerError::Other(_)))
    ));
}

#[test]
fn extensions_of_a_self_signed_certificate() {
    let context = Context::new();
    let signer = p384_signer();
    let spki = signer.subject_public_key_info(&context).unwrap();
    let built = build_extensions(
        &context,
        &args("CN=me", false, Some(vec![KeyUsage::DigitalSignature])),
        spki,
    )
    .unwrap();
    assert_eq!(built.len(), 4);
    assert_eq!(built[0].extn_value, &[0x30, 0x06, 0x01, 0x01, 0xff, 0x02, 0x01, 0x02][..]);
    assert!(!built[0].critical);
    assert_eq!(built[3].extn_value, &[0x03, 0x02, 0x07, 0x80][..]);
    assert!(built[3].critical);
    assert_eq!(built[1].extn_value[4..], built[2].extn_value[2..]);
}

#[test]
fn rsa_errors_are_told_apart() {
    assert!(matches!(
        SignerError::from_rsa(rsa::errors::Error::Internal),
        SignerError::RsaInternal(rsa::errors::Error::Internal)
    ));
    assert!(matches!(
        SignerError::from_rsa(rsa::errors::Error::Verification),
        SignerError::Rsa(rsa::errors::Error::Verification)
    ));
    assert!(matches!(
        SignerError::from_rsa(rsa::errors::Error::InvalidPaddingScheme),
        SignerError::Rsa(rsa::errors::Error::InvalidPaddingScheme)
    ));
}

#[test]
fn rsa_get_signer() {
    let got = x509_util::rsa_signer::get_signer(
        RSAKeySize::RSA4096,
        RSASigningMode::Pkcs1v15,
        None,
        KeyInput::Existing(&RSA_2048_PKCS8[..]),
    )
    .unwrap();
    assert!(got.new_key.is_none());
    // the hash goes by the size that was asked for
    assert_eq!(
        got.signer.as_padding_scheme(),
        PaddingScheme::Pkcs1v15Sign { hash: HashMode::SHA512 }
    );
    assert_eq!(got.signer.to_pkcs8_der().unwrap(), RSA_2048_PKCS8.as_slice().to_vec());

    let got = x509_util::rsa_signer::get_signer(
        RSAKeySize::RSA4096,
        RSASigningMode::Pss,
        Some(HashMode::SHA256),
        KeyInput::Existing(&RSA_2048_PKCS8[..]),
    )
    .unwrap();
    assert_eq!(
        got.signer.as_padding_scheme(),
        PaddingScheme::Pss { hash: HashMode::SHA256, salt_len: 32 }
    );

    assert!(matches!(
        x509_util::rsa_signer::get_signer(
            RSAKeySize::RSA2048,
            RSASigningMode::Pss,
            None,
            KeyInput::Missing
        ),
        Err(GetSignerError::MissingKey)
    ));
    assert!(matches!(
        x509_util::rsa_signer::get_signer(
            RSAKeySize::RSA2048,
            RSASigningMode::Pss,
            None,
            KeyInput::Existing(&[0x30, 0x00][..])
        ),
        Err(GetSignerError::Signer(SignerError::Pkcs8(_)))
    ));
}

#[test]
fn rsa_get_signer_makes_a_new_key() {
    let got = x509_util::rsa_signer::get_signer(
        RSAKeySize::RSA1024,
        RSASigningMode::Pkcs1v15,
        None,
        KeyInput::New,
    )
    .unwrap();
    let written = got.new_key.unwrap();
    assert_eq!(got.signer.to_pkcs8_der().unwrap(), written);
    let context = Context::new();
    let spki = got.signer.subject_public_key_info(&context).unwrap();
    let key = rsa::RsaPublicKey::from_public_key_der(spki.as_der()).unwrap();
    assert_eq!(key.size(), 128);
    let again = RsaSigner::from_pkcs8_der(&written, RSASigningMode::Pkcs1v15, HashMode::SHA256)
        .unwrap();
    assert_eq!(again.sign(b"m").unwrap(), got.signer.sign(b"m").unwrap());

    let random = RsaSigner::random(RSASigningMode::Pss, HashMode::SHA256, 1024).unwrap();
    assert_ne!(random.to_pkcs8_der().unwrap(), written);
    let key = rsa::RsaPrivateKey::new(&mut rand_core::OsRng, 1024).unwrap();
    let expected = pkcs8::EncodePrivateKey::to_pkcs8_der(&key).unwrap();
    let signer =
        RsaSigner::from_key(key, RSASigningMode::Pkcs1v15, HashMode::SHA256).unwrap();
    assert_eq!(signer.to_pkcs8_der().unwrap(), expected.as_bytes().to_vec());
}

#[test]
fn a_key_too_small_for_the_hash() {
    let key = rsa::RsaPrivateKey::new(&mut rand_core::OsRng, 512).unwrap();
    let signer =
        RsaSigner::from_key(key, RSASigningMode::Pkcs1v15, HashMode::SHA512).unwrap();
    assert!(matches!(
        signer.sign(b"m"),
        Err(SignerError::Rsa(_)) | Err(SignerError::RsaInternal(_))
    ));
}

#[test]
fn ec_get_signer() {
    let got = x509_util::ec_signer::get_signer(EcdsaCurve::P384, KeyInput::New).unwrap();
    let written = got.new_key.unwrap();
    assert_eq!(got.signer.to_pkcs8_der(), written);
    let pem = der::pem::encode_string("PRIVATE KEY", der::pem::LineEnding::CRLF, &written)
        .unwrap();
    let again =
        x509_util::ec_signer::get_signer(EcdsaCurve::P384, KeyInput::Existing(&pem)).unwrap();
    assert!(again.new_key.is_none());
    assert_eq!(again.signer.to_pkcs8_der(), written);

    assert!(matches!(
        x509_util::ec_signer::get_signer(EcdsaCurve::P256, KeyInput::Missing),
        Err(GetSignerError::MissingKey)
    ));
    assert!(matches!(
        x509_util::ec_signer::get_signer(EcdsaCurve::P256, KeyInput::Existing(&pem)),
        Err(GetSignerError::Signer(SignerError::Pkcs8(_)))
    ));
}

#[test]
fn a_signature_too_long_for_a_bit_string() {
    let context = Context::new();
    let long = vec![0u8; 0x1000_0000];
    assert!(matches!(
        signature_of(&context, Ok(long)),
        Err(X509Error::DERError(_))
    ));
}

#[test]
fn leaf_certificate_of_an_rsa_authority() {
    let context = Context::new();
    let ca_signer = rsa_signer(RSASigningMode::Pkcs1v15, HashMode::SHA512);
    let ca_spki = ca_signer.subject_public_key_info(&context).unwrap();
    let ca_name = Name::from_pairs(&context, &[("C", "US"), ("ST", "CA"), ("CN", "ca")]).unwrap();
    let ca = TbsCertificate {
        version: Version::V3,
        serial_number: random_serial(&context).unwrap(),
        signature: ca_signer.signature_algorithm().unwrap(),
        issuer: ca_name.clone(),
        validity: validity(),
        subject: ca_name,
        subject_public_key_info: ca_spki,
        extensions: Some(ca_extensions(&context, ca_spki, ca_spki, Some(1))),
    }
    .sign(&context, &ca_signer)
    .unwrap();

    let leaf_key = p384_signer();
    let leaf_spki = leaf_key.subject_public_key_info(&context).unwrap();
    let leaf = TbsCertificate {
        version: Version::V3,
        serial_number: random_serial(&context).unwrap(),
        signature: ca_signer.signature_algorithm().unwrap(),
        issuer: ca.tbs_certificate.subject.clone(),
        validity: validity(),
        subject: Name::from_pairs(&context, &[("C", "US"), ("ST", "CA"), ("CN", "leafy")])
            .unwrap(),
        subject_public_key_info: leaf_spki,
        extensions: Some(ca_extensions(&context, leaf_spki, ca_spki, None)),
    }
    .sign(&context, &ca_signer)
    .unwrap();

    let ca_der = ca.to_der().unwrap();
    let leaf_der = leaf.to_der().unwrap();
    let ca_parsed = x509_cert::Certificate::from_der(&ca_der).unwrap();
    let leaf_parsed = x509_cert::Certificate::from_der(&leaf_der).unwrap();
    assert_eq!(key_id_of(&ca_parsed, true), key_id_of(&ca_parsed, false));
    assert_eq!(key_id_of(&leaf_parsed, true), key_id_of(&ca_parsed, false));
    assert_eq!(
        leaf_parsed.tbs_certificate.issuer.to_vec().unwrap(),
        ca_parsed.tbs_certificate.subject.to_vec().unwrap()
    );
    assert_eq!(
        leaf_parsed.signature_algorithm.oid,
        const_oid::db::rfc5912::SHA_512_WITH_RSA_ENCRYPTION
    );
    assert_eq!(leaf_parsed.signature_algorithm, leaf_parsed.tbs_certificate.signature);

    let key = rsa::RsaPublicKey::from_public_key_der(ca_spki.as_der()).unwrap();
    let digest = sha2::Sha512::digest(leaf.tbs_certificate.to_der().unwrap()).to_vec();
    assert!(key
        .verify(
            rsa::PaddingScheme::new_pkcs1v15_sign::<sha2::Sha512>(),
            &digest,
            leaf.signature
        )
        .is_ok());
}

#[test]
fn answers_of_the_rsa_operation() {
    assert_eq!(signature_or_error(Ok(vec![1, 2, 3])).unwrap(), vec![1, 2, 3]);
    assert!(matches!(
        signature_or_error(Err(rsa::errors::Error::Internal)),
        Err(SignerError::RsaInternal(rsa::errors::Error::Internal))
    ));
    assert!(matches!(
        signature_or_error(Err(rsa::errors::Error::InputNotHashed)),
        Err(SignerError::Rsa(rsa::errors::Error::InputNotHashed))
    ));
}

#[test]
fn public_key_of_an_rsa_signer() {
    let context = Context::new();
    let signer = rsa_signer(RSASigningMode::Pkcs1v15, HashMode::SHA256);
    let info = signer.subject_public_key_info(&context).unwrap();
    let key = rsa::RsaPrivateKey::from_pkcs8_der(&RSA_2048_PKCS8).unwrap();
    let expected = key.to_public_key().to_public_key_der().unwrap();
    assert_eq!(info.as_der(), expected.as_bytes());

    let decoded = decoded_public_key(&context, expected.as_bytes()).unwrap();
    assert_eq!(decoded.as_der(), expected.as_bytes());
    assert_eq!(decoded.subject_public_key(), info.subject_public_key());
    assert!(matches!(
        decoded_public_key(&context, &[0x30, 0x00]),
        Err(SignerError::X509Util(_))
    ));
}

#[test]
fn rsa_signer_keeps_its_key() {
    let signer = rsa_signer(RSASigningMode::Pss, HashMode::SHA384);
    assert_eq!(signer.to_pkcs8_der().unwrap(), RSA_2048_PKCS8.as_slice().to_vec());
    assert!(matches!(
        RsaSigner::from_pkcs8_der(&[0x30, 0x00], RSASigningMode::Pss, HashMode::SHA384),
        Err(_)
    ));

    // the signature is that of the rsa crate over the digest
    let signer = rsa_signer(RSASigningMode::Pkcs1v15, HashMode::SHA256);
    let key = rsa::RsaPrivateKey::from_pkcs8_der(&RSA_2048_PKCS8).unwrap();
    let digest = sha2::Sha256::digest(b"message").to_vec();
    let expected = key
        .sign(
            rsa::PaddingScheme::new_pkcs1v15_sign::<sha2::Sha256>(),
            &digest,
        )
        .unwrap();
    assert_eq!(signer.sign(b"message").unwrap(), expected);
}

#[test]
fn parse_through_from_str() {
    let name: Result<OwnedName, String> = std::str::FromStr::from_str("C=US, CN = \"a b\"");
    assert_eq!(
        name.unwrap(),
        OwnedName(vec![
            ("C".to_string(), "US".to_string()),
            ("CN".to_string(), "a b".to_string())
        ])
    );
    let bad: Result<OwnedName, String> = std::str::FromStr::from_str("C=US,");
    assert_eq!(bad.unwrap_err(), "expected a key");
    let bad: Result<OwnedName, String> = std::str::FromStr::from_str("C=\"US");
    assert_eq!(bad.unwrap_err(), "the quote is not closed");
}

fn with_primes(prime1: &[u8], prime2: &[u8]) -> Vec<u8> {
    let info = pkcs8::PrivateKeyInfo::try_from(&RSA_2048_PKCS8[..]).unwrap();
    let key = pkcs1::RsaPrivateKey::try_from(info.private_key).unwrap();
    let changed = pkcs1::RsaPrivateKey {
        modulus: key.modulus,
        public_exponent: key.public_exponent,
        private_exponent: key.private_exponent,
        prime1: pkcs1::UIntRef::new(prime1).unwrap(),
        prime2: pkcs1::UIntRef::new(prime2).unwrap(),
        exponent1: key.exponent1,
        exponent2: key.exponent2,
        coefficient: key.coefficient,
        other_prime_infos: None,
    };
    let inner = der::Encode::to_vec(&changed).unwrap();
    let outer = pkcs8::PrivateKeyInfo::new(info.algorithm, &inner);
    der::Encode::to_vec(&outer).unwrap()
}

#[test]
fn a_key_with_a_prime_of_zero_or_one_is_refused() {
    let info = pkcs8::PrivateKeyInfo::try_from(&RSA_2048_PKCS8[..]).unwrap();
    let key = pkcs1::RsaPrivateKey::try_from(info.private_key).unwrap();
    let p = key.prime1.as_bytes().to_vec();
    let q = key.prime2.as_bytes().to_vec();

    // the document is put together as it was
    assert_eq!(with_primes(&p, &q), RSA_2048_PKCS8.as_slice().to_vec());
    assert!(
        RsaSigner::from_pkcs8_der(&with_primes(&p, &q), RSASigningMode::Pss, HashMode::SHA256)
            .is_ok()
    );

    for bad in [&[0u8][..], &[1u8][..], &[0u8, 0, 1][..], &[][..]] {
        for document in [with_primes(bad, &q), with_primes(&p, bad), with_primes(bad, bad)] {
            let refused =
                RsaSigner::from_pkcs8_der(&document, RSASigningMode::Pss, HashMode::SHA256);
            if bad.is_empty() {
                // an integer without bytes is no DER
                assert!(matches!(refused, Err(pkcs8::Error::Asn1(_))));
            } else {
                assert!(matches!(refused, Err(pkcs8::Error::KeyMalformed)));
            }
            assert!(matches!(
                x509_util::rsa_signer::get_signer(
                    RSAKeySize::RSA2048,
                    RSASigningMode::Pkcs1v15,
                    None,
                    KeyInput::Existing(&document)
                ),
                Err(GetSignerError::Signer(SignerError::Pkcs8(_)))
            ));
        }
    }
}

#[test]
fn a_key_whose_primes_do_not_fit_is_refused() {
    let info = pkcs8::PrivateKeyInfo::try_from(&RSA_2048_PKCS8[..]).unwrap();
    let key = pkcs1::RsaPrivateKey::try_from(info.private_key).unwrap();
    let p = key.prime1.as_bytes().to_vec();
    for other in [&[2u8][..], &[3u8][..], &[0xffu8, 0xff, 0xfb][..]] {
        assert!(matches!(
            RsaSigner::from_pkcs8_der(
                &with_primes(&p, other),
                RSASigningMode::Pkcs1v15,
                HashMode::SHA256
            ),
            Err(pkcs8::Error::KeyMalformed)
        ));
    }
    assert!(RsaSigner::from_pkcs8_der(&[], RSASigningMode::Pss, HashMode::SHA256).is_err());
    assert!(
        RsaSigner::from_pkcs8_der(&P384_PKCS8, RSASigningMode::Pss, HashMode::SHA256).is_err()
    );
}

#[test]
fn an_rsa_signature_is_as_long_as_the_modulus() {
    for mode in [RSASigningMode::Pkcs1v15, RSASigningMode::Pss] {
        for hash in [HashMode::SHA256, HashMode::SHA384, HashMode::SHA512] {
            let signer = rsa_signer(mode, hash);
            assert_eq!(signer.sign(b"").unwrap().len(), 256);
            assert_eq!(signer.sign(b"some longer message").unwrap().len(), 256);
        }
    }
    let small = RsaSigner::random(RSASigningMode::Pss, HashMode::SHA256, 1024).unwrap();
    assert_eq!(small.sign(b"m").unwrap().len(), 128);
}

#[test]
fn numbers_greater_than_one() {
    let cases: [(&[u8], bool); 10] = [
        (&[], false),
        (&[0], false),
        (&[1], false),
        (&[2], true),
        (&[0xff], true),
        (&[0, 0, 0], false),
        (&[0, 0, 1], false),
        (&[0, 0, 2], true),
        (&[1, 0], true),
        (&[0, 1, 0], true),
    ];
    for (bytes, expected) in cases {
        assert_eq!(exceeds_one(bytes), expected);
    }
}

#[test]
fn a_fresh_signer_has_a_public_key() {
    let context = Context::new();
    for curve in [EcdsaCurve::P256, EcdsaCurve::P384] {
        let signer = new_signer(curve).unwrap();
        assert!(signer.subject_public_key_info(&context).is_ok());
    }
    assert!(P256Signer::random().unwrap().pubkey_bytes().is_ok());
    assert!(x509_util::ec_signer::P384Signer::random()
        .unwrap()
        .pubkey_bytes()
        .is_ok());
}
