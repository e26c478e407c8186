use process_remote::error::ProcessRemoteError;
use process_remote::layout::{
    byte_order_of_probe, check_compatibility, current_byte_order, host_layout, ByteOrder, Layout,
    ORDER_PROBE,
};

fn all_orders() -> Vec<ByteOrder> {
    vec![ByteOrder::Invalid, ByteOrder::Big, ByteOrder::Pdp, ByteOrder::Little]
}

#[test]
fn equal_layouts_are_accepted() {
    for order in all_orders() {
        for width in [4u32, 8u32] {
            let layout = Layout { byte_order: order, address_width: width };
            assert_eq!(check_compatibility(layout, layout), Ok(()));
        }
    }
}

#[test]
fn different_byte_orders_are_rejected() {
    for a in all_orders() {
        for b in all_orders() {
            if a != b {
                let target = Layout { byte_order: a, address_width: 8 };
                let host = Layout { byte_order: b, address_width: 8 };
                assert_eq!(
                    check_compatibility(target, host),
                    Err(ProcessRemoteError::ByteOrderMismatch)
                );
            }
        }
    }
}

#[test]
fn different_widths_are_rejected() {
    let target = Layout { byte_order: ByteOrder::Little, address_width: 4 };
    let host = Layout { byte_order: ByteOrder::Little, address_width: 8 };
    assert_eq!(check_compatibility(target, host), Err(ProcessRemoteError::PointerSizeMismatch));
}

#[test]
fn byte_order_is_compared_before_width() {
    let target = Layout { byte_order: ByteOrder::Big, address_width: 4 };
    let host = Layout { byte_order: ByteOrder::Little, address_width: 8 };
    assert_eq!(check_compatibility(target, host), Err(ProcessRemoteError::ByteOrderMismatch));
}

#[test]
fn probe_bytes_tell_the_order() {
    assert_eq!(byte_order_of_probe(&[0x02, 0x01]), ByteOrder::Little);
    assert_eq!(byte_order_of_probe(&[0x01, 0x02]), ByteOrder::Big);
    assert_eq!(byte_order_of_probe(&[0x01, 0x01]), ByteOrder::Invalid);
    assert_eq!(byte_order_of_probe(&[0x02]), ByteOrder::Invalid);
    assert_eq!(byte_order_of_probe(&[]), ByteOrder::Invalid);
    assert_eq!(byte_order_of_probe(&[0x02, 0x01, 0x00]), ByteOrder::Invalid);
    assert_eq!(byte_order_of_probe(&ORDER_PROBE.to_le_bytes()), ByteOrder::Little);
    assert_eq!(byte_order_of_probe(&ORDER_PROBE.to_be_bytes()), ByteOrder::Big);
}

#[test]
fn current_byte_order_is_the_native_one() {
    let expected = if ORDER_PROBE.to_ne_bytes() == ORDER_PROBE.to_le_bytes() {
        ByteOrder::Little
    } else {
        ByteOrder::Big
    };
    assert_eq!(current_byte_order(), expected);
    assert_ne!(current_byte_order(), ByteOrder::Invalid);
}

#[test]
fn host_layout_is_this_machine() {
    let host = host_layout();
    assert_eq!(host.address_width as usize, std::mem::size_of::<usize>());
    assert_eq!(host.byte_order, current_byte_order());
    assert_eq!(check_compatibility(host, host_layout()), Ok(()));
}

#[test]
fn error_messages() {
    assert_eq!(ProcessRemoteError::ByteOrderMismatch.message(), "byte order mismatch");
    assert_eq!(ProcessRemoteError::PointerSizeMismatch.message(), "pointer size mismatch");
}
