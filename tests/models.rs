use klirr::models::{
    DataSelector, Day, HexColor, L18nInvoiceInfo, NetDays, ParseError, PaymentTerms,
    PurchaseOrder, TimestampedInvoiceNumber, YearAndMonth,
};

#[test]
fn all_includes_every_part() {
    for target in [
        DataSelector::Vendor,
        DataSelector::Client,
        DataSelector::ExpensedMonths,
        DataSelector::All,
    ] {
        assert!(DataSelector::All.includes(target));
    }
}

#[test]
fn a_part_includes_only_itself() {
    assert!(DataSelector::Vendor.includes(DataSelector::Vendor));
    assert!(!DataSelector::Vendor.includes(DataSelector::Client));
    assert!(!DataSelector::Client.includes(DataSelector::All));
    assert!(DataSelector::ServiceFees.includes(DataSelector::ServiceFees));
}

#[test]
fn english_labels() {
    let l = L18nInvoiceInfo::english();
    assert_eq!(l.purchase_order, "Purchase order:");
    assert_eq!(l.invoice_identifier, "Invoice no:");
    assert_eq!(l.invoice_date, "Invoice date:");
    assert_eq!(l.due_date, "Due date:");
    assert_eq!(l.client_contact, "For the attention of:");
    assert_eq!(l.vendor_contact, "Our reference:");
    assert_eq!(l.terms, "Terms");
}

#[test]
fn net30_is_due_in_thirty_days() {
    assert_eq!(NetDays::net30().due_in.value(), 30);
    let PaymentTerms::Net(days) = PaymentTerms::net30();
    assert_eq!(days.due_in.value(), 30);
    let PaymentTerms::Net(days) = PaymentTerms::default();
    assert_eq!(days.due_in.value(), 30);
}

#[test]
fn days_range_from_one_to_thirty_one() {
    assert_eq!(Day::try_new(1).map(|d| d.value()), Some(1));
    assert_eq!(Day::try_new(31).map(|d| d.value()), Some(31));
    assert!(Day::try_new(0).is_none());
    assert!(Day::try_new(32).is_none());
}

#[test]
fn purchase_order_sample() {
    assert_eq!(PurchaseOrder::sample().0, "PO-12345");
}

#[test]
fn hex_color_parses_six_digits() {
    let c = HexColor::from_str("#e6007a").unwrap();
    assert_eq!((c.red, c.green, c.blue), (230, 0, 122));
    assert_eq!(HexColor::from_str("#E6007A").unwrap(), c);
    assert_eq!(c, HexColor::sample());
}

#[test]
fn hex_color_rejects_other_shapes() {
    for bad in ["e6007a", "#e6007", "#e6007a0", "#gg007a", "", "#e6 07a"] {
        match HexColor::from_str(bad) {
            Err(ParseError::InvalidHexColor { invalid_string }) => assert_eq!(invalid_string, bad),
            other => panic!("unexpected {:?} for {:?}", other.ok(), bad),
        }
    }
}

#[test]
fn hex_color_text() {
    assert_eq!(HexColor::sample().to_hex_string(), "#e6007a");
    assert_eq!(HexColor::default().to_hex_string(), "#3ed6c0");
    let c = HexColor {
        red: 255,
        green: 10,
        blue: 1,
    };
    assert_eq!(c.to_hex_string(), "#ff0a01");
    assert_eq!(HexColor::from_str(&c.to_hex_string()).unwrap(), c);
}

#[test]
fn net_days_parse() {
    let days = |s: &str| NetDays::from_str(s).ok().map(|n| n.due_in.value());
    assert_eq!(days("Net 30"), Some(30));
    assert_eq!(days("Net 7"), Some(7));
    assert_eq!(days("Net 31"), Some(31));
    assert_eq!(days("Net 030"), Some(30));
    assert_eq!(days("xNet 15"), Some(15));
    assert_eq!(days("Net 30Net 5"), Some(30));
}

#[test]
fn net_days_rejects_other_text() {
    for bad in ["Net 0", "Net 32", "Net 300", "Net", "30", "Net ", "Net 3a", "net 30"] {
        match NetDays::from_str(bad) {
            Err(ParseError::FailedToParsePaymentTermsNetDays { invalid_string }) => {
                assert_eq!(invalid_string, bad)
            }
            other => panic!("unexpected {:?} for {:?}", other.map(|n| n.due_in.value()), bad),
        }
    }
}

#[test]
fn timestamped_invoice_number_sample() {
    let t = TimestampedInvoiceNumber::sample();
    assert_eq!(t.offset, 17);
    assert_eq!(t.month, YearAndMonth { year: 1905, month: 10 });
}
