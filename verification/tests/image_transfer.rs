use lib::{DlmsData, ObisCode};
use lib::image_transfer::{ImageTransfer, ImageTransferStatus};

#[test]
fn test_image_transfer_class_id() {
    let it = ImageTransfer::new(ObisCode::new(0, 0, 44, 0, 0, 255));
    assert_eq!(it.class_id(), 18);
}

#[test]
fn test_image_transfer_status() {
    let mut it = ImageTransfer::new(ObisCode::new(0, 0, 44, 0, 0, 255));
    assert_eq!(it.status(), ImageTransferStatus::Idle);
    it.set_status(ImageTransferStatus::Initiated);
    assert_eq!(it.status(), ImageTransferStatus::Initiated);
}

#[test]
fn test_image_transfer_roundtrip() {
    let mut it = ImageTransfer::new(ObisCode::new(0, 0, 44, 0, 0, 255));
    let bytes = DlmsData::Enum(1);
    it.apply_attribute(7, Some(bytes)).unwrap();
    assert_eq!(it.status(), ImageTransferStatus::Initiated);
}
