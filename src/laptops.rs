use vstd::prelude::*;
use vstd::string::*;

use crate::aura::AuraModeNum;

verus! {

/// The USB product ids of the supported laptop keyboards (vendor 0x0b05).
pub open spec fn is_laptop_device(product: u16) -> bool {
    product == 0x1866 || product == 0x1869 || product == 0x1854 || product == 0x19b6
}

/// Whether a USB device is one of the supported laptop keyboards.
pub fn is_laptop_keyboard(vendor: u16, product: u16) -> (r: bool)
    ensures
        r == (vendor == 0x0b05 && is_laptop_device(product)),
{
    vendor == 0x0b05 && (product == 0x1866 || product == 0x1869 || product == 0x1854 || product == 0x19b6)
}

/// The keyboard lighting a laptop model supports.
#[derive(Debug, Clone)]
pub struct LaptopLedData {
    pub prod_family: String,
    pub board_names: Vec<String>,
    pub standard: Vec<AuraModeNum>,
    pub multizone: bool,
    pub per_key: bool,
}

impl LaptopLedData {
    /// No lighting support: the data of an unmatched model.
    pub fn new() -> (r: LaptopLedData)
        ensures
            r.prod_family@ == Seq::<char>::empty(),
            r.board_names@.len() == 0,
            r.standard@.len() == 0,
            !r.multizone,
            !r.per_key,
    {
        LaptopLedData {
            prod_family: String::new(),
            board_names: Vec::new(),
            standard: Vec::new(),
            multizone: false,
            per_key: false,
        }
    }
}

/// A helper for functions tied to laptop models.
#[derive(Debug)]
pub struct LaptopBase {
    usb_product: String,
    condev_iface: Option<String>,
    led_support: LaptopLedData,
}

impl LaptopBase {
    pub closed spec fn spec_usb_product(&self) -> Seq<char> {
        self.usb_product@
    }

    pub closed spec fn spec_condev_iface(&self) -> Option<Seq<char>> {
        match self.condev_iface {
            Some(s) => Some(s@),
            None => None,
        }
    }

    pub closed spec fn spec_led_support(&self) -> LaptopLedData {
        self.led_support
    }

    pub fn new(usb_product: String, condev_iface: Option<String>, led_support: LaptopLedData) -> (r: LaptopBase)
        ensures
            r.spec_usb_product() == usb_product@,
            r.spec_condev_iface() == (match condev_iface {
                Some(s) => Some(s@),
                None => None::<Seq<char>>,
            }),
            r.spec_led_support() == led_support,
    {
        LaptopBase { usb_product, condev_iface, led_support }
    }

    pub fn usb_product(&self) -> (r: &str)
        ensures
            r@ == self.spec_usb_product(),
    {
        self.usb_product.as_str()
    }

    /// The consumer-device interface, where the model needs one.
    pub fn condev_iface(&self) -> (r: Option<&String>)
        ensures
            match r {
                Some(s) => self.spec_condev_iface() == Some(s@),
                None => self.spec_condev_iface() is None,
            },
    {
        self.condev_iface.as_ref()
    }

    pub fn supported_modes(&self) -> (r: &LaptopLedData)
        ensures
            *r == self.spec_led_support(),
    {
        &self.led_support
    }
}

pub open spec fn chars_match_at(s: Seq<char>, p: Seq<char>, i: int) -> bool {
    0 <= i && i + p.len() <= s.len() && s.subrange(i, i + p.len()) == p
}

/// Whether `p` occurs in `s`.
pub open spec fn contains_chars(s: Seq<char>, p: Seq<char>) -> bool {
    exists|i: int| chars_match_at(s, p, i)
}

/// Whether `p` occurs in `s`.
pub fn str_contains(s: &str, p: &str) -> (r: bool)
    ensures
        r == contains_chars(s@, p@),
{
    let n = s.unicode_len();
    let m = p.unicode_len();
    if m > n {
        return false;
    }
    let last = n - m;
    let mut i: usize = 0;
    while i <= last
        invariant
            n == s@.len(),
            m == p@.len(),
            m <= n,
            last == n - m,
            0 <= i <= last + 1,
            forall|j: int| 0 <= j < i ==> !chars_match_at(s@, p@, j),
        decreases last + 1 - i,
    {
        let mut k: usize = 0;
        while k < m
            invariant
                n == s@.len(),
                m == p@.len(),
                i <= last,
                last == n - m,
                0 <= k <= m,
                forall|j: int| 0 <= j < k ==> s@[i + j] == p@[j],
            ensures
                0 <= k <= m,
                forall|j: int| 0 <= j < k ==> s@[i + j] == p@[j],
                k < m ==> s@[i + k] != p@[k as int],
            decreases m - k,
        {
            if s.get_char(i + k) != p.get_char(k) {
                break;
            }
            k = k + 1;
        }
        if k == m {
            assert(s@.subrange(i as int, i + m) =~= p@);
            assert(chars_match_at(s@, p@, i as int));
            return true;
        }
        assert(s@.subrange(i as int, i + m)[k as int] != p@[k as int]);
        i = i + 1;
    }
    assert forall|j: int| !chars_match_at(s@, p@, j) by {
        if 0 <= j && j + p@.len() <= s@.len() {
            assert(j < i);
        }
    }
    false
}

/// Whether a model entry fits the product family and board name: its family
/// occurs in `prod_family` and one of its board names in `board_name`.
pub open spec fn entry_matches(d: LaptopLedData, prod_family: Seq<char>, board_name: Seq<char>) -> bool {
    contains_chars(prod_family, d.prod_family@) && exists|b: int|
        0 <= b < d.board_names@.len() && contains_chars(board_name, #[trigger] d.board_names@[b]@)
}

/// The model entries of the LED mode file.
pub struct LedSupportFile {
    pub led_data: Vec<LaptopLedData>,
}

impl LedSupportFile {
    /// The first entry that fits the product family and board name, if any.
    pub fn matcher(self, prod_family: &str, board_name: &str) -> (r: Option<LaptopLedData>)
        ensures
            match r {
                Some(d) => exists|i: int|
                    0 <= i < self.led_data@.len() && #[trigger] self.led_data@[i] == d && entry_matches(d, prod_family@, board_name@)
                        && forall|j: int| 0 <= j < i ==> !entry_matches(#[trigger] self.led_data@[j], prod_family@, board_name@),
                None => forall|j: int|
                    0 <= j < self.led_data@.len() ==> !entry_matches(#[trigger] self.led_data@[j], prod_family@, board_name@),
            },
    {
        let mut found: Option<usize> = None;
        let mut i: usize = 0;
        while i < self.led_data.len()
            invariant_except_break
                found is None,
            invariant
                0 <= i <= self.led_data@.len(),
                forall|j: int| 0 <= j < i ==> !entry_matches(#[trigger] self.led_data@[j], prod_family@, board_name@),
            ensures
                match found {
                    Some(k) => 0 <= k < self.led_data@.len() && entry_matches(self.led_data@[k as int], prod_family@, board_name@)
                        && forall|j: int| 0 <= j < k ==> !entry_matches(#[trigger] self.led_data@[j], prod_family@, board_name@),
                    None => forall|j: int| 0 <= j < self.led_data@.len() ==> !entry_matches(#[trigger] self.led_data@[j], prod_family@, board_name@),
                },
            decreases self.led_data@.len() - i,
        {
            let entry = &self.led_data[i];
            if str_contains(prod_family, entry.prod_family.as_str()) {
                let boards = &entry.board_names;
                let mut b: usize = 0;
                while b < boards.len()
                    invariant
                        0 <= b <= boards@.len(),
                        forall|k: int| 0 <= k < b ==> !contains_chars(board_name@, #[trigger] boards@[k]@),
                    ensures
                        b < boards@.len() ==> contains_chars(board_name@, boards@[b as int]@),
                        b >= boards@.len() ==> forall|k: int| 0 <= k < boards@.len() ==> !contains_chars(board_name@, #[trigger] boards@[k]@),
                    decreases boards@.len() - b,
                {
                    if str_contains(board_name, boards[b].as_str()) {
                        break;
                    }
                    b = b + 1;
                }
                if b < boards.len() {
                    assert(entry_matches(*entry, prod_family@, board_name@));
                    found = Some(i);
                    break;
                }
            }
            i = i + 1;
        }
        match found {
            Some(k) => {
                let mut data = self.led_data;
                let d = data.remove(k);
                Some(d)
            },
            None => None,
        }
    }
}

} // verus!
