//! Link-layer header types, as listed in the tcpdump.org registry of
//! standardized link-layer type codes.

use vstd::prelude::*;

verus! {

/// The framing of the packets captured on an interface. Codes that the
/// registry does not list here are kept as `Unknown`.
#[allow(non_camel_case_types)]
#[derive(Clone, Copy, Debug, PartialEq, Eq, Structural)]
pub enum DataLink {
    /// BSD loopback encapsulation.
    NULL,
    /// IEEE 802.3 Ethernet.
    ETHERNET,
    /// experimental 3 Mb/s Ethernet.
    EXP_ETHERNET,
    /// AX.25 packet.
    AX25,
    /// Proteon ProNET Token Ring.
    PRONET,
    /// Chaos.
    CHAOS,
    /// IEEE 802.5 Token Ring.
    IEEE802_5,
    /// ARCNET, BSD style.
    ARCNET_BSD,
    /// SLIP.
    SLIP,
    /// PPP.
    PPP,
    /// FDDI.
    FDDI,
    /// PPP in HDLC-like framing.
    PPP_HDLC,
    /// PPPoE.
    PPP_ETHER,
    /// RFC 1483 LLC/SNAP-encapsulated ATM.
    ATM_RFC1483,
    /// raw IP.
    RAW,
    /// Cisco PPP with HDLC framing.
    C_HDLC,
    /// IEEE 802.11 wireless LAN.
    IEEE802_11,
    /// Frame Relay.
    FRELAY,
    /// OpenBSD loopback encapsulation.
    LOOP,
    /// Linux "cooked" capture.
    LINUX_SLL,
    /// Apple LocalTalk.
    LTALK,
    /// OpenBSD pflog.
    PFLOG,
    /// Prism monitor mode header and 802.11.
    IEEE802_11_PRISM,
    /// RFC 2625 IP-over-Fibre Channel.
    IP_OVER_FC,
    /// ATM traffic, SunATM style.
    SUNATM,
    /// Radiotap header and 802.11.
    IEEE802_11_RADIOTAP,
    /// ARCNET, Linux style.
    ARCNET_LINUX,
    /// Apple IP-over-IEEE 1394.
    APPLE_IP_OVER_IEEE1394,
    /// SS7 MTP2 with pseudo-header.
    MTP2_WITH_PHDR,
    /// SS7 MTP2.
    MTP2,
    /// SS7 MTP3.
    MTP3,
    /// SS7 SCCP.
    SCCP,
    /// DOCSIS MAC frames.
    DOCSIS,
    /// Linux-IrDA.
    LINUX_IRDA,
    /// AVS monitor mode header and 802.11.
    IEEE802_11_AVS,
    /// BACnet MS/TP.
    BACNET_MS_TP,
    /// PPP in HDLC-like encapsulation, pppd style.
    PPP_PPPD,
    /// GPRS LLC.
    GPRS_LLC,
    /// LAPD with Linux pseudo-header.
    LINUX_LAPD,
    /// Bluetooth HCI UART transport layer.
    BLUETOOTH_HCI_H4,
    /// USB, Linux usbmon.
    USB_LINUX,
    /// Per-Packet Information header.
    PPI,
    /// IEEE 802.15.4 with FCS.
    IEEE802_15_4,
    /// SITA pseudo-header.
    SITA,
    /// Endace ERF.
    ERF,
    /// Bluetooth HCI UART with direction pseudo-header.
    BLUETOOTH_HCI_H4_WITH_PHDR,
    /// AX.25 with KISS header.
    AX25_KISS,
    /// LAPD.
    LAPD,
    /// PPP with direction pseudo-header.
    PPP_WITH_DIR,
    /// Cisco HDLC with direction pseudo-header.
    C_HDLC_WITH_DIR,
    /// Frame Relay with direction pseudo-header.
    FRELAY_WITH_DIR,
    /// IPMB with Linux pseudo-header.
    IPMB_LINUX,
    /// IEEE 802.15.4 with PHY-level data.
    IEEE802_15_4_NONASK_PHY,
    /// USB, Linux usbmon, memory-mapped.
    USB_LINUX_MMAPPED,
    /// Fibre Channel FC-2 frames.
    FC_2,
    /// Fibre Channel FC-2 frames with delimiters.
    FC_2_WITH_FRAME_DELIMS,
    /// Solaris ipnet.
    IPNET,
    /// CAN, SocketCAN.
    CAN_SOCKETCAN,
    /// raw IPv4.
    IPV4,
    /// raw IPv6.
    IPV6,
    /// IEEE 802.15.4 without FCS.
    IEEE802_15_4_NOFCS,
    /// D-Bus messages.
    DBUS,
    /// DVB-CI messages.
    DVB_CI,
    /// 3GPP TS 27.010 multiplexing.
    MUX27010,
    /// STANAG 5066 D_PDUs.
    STANAG_5066_D_PDU,
    /// Linux netlink NFLOG.
    NFLOG,
    /// Hilscher netANALYZER.
    NETANALYZER,
    /// Hilscher netANALYZER, transparent mode.
    NETANALYZER_TRANSPARENT,
    /// IP-over-InfiniBand.
    IPOIB,
    /// MPEG-2 transport stream.
    MPEG_2_TS,
    /// ng4T ng40 protocol tester.
    NG40,
    /// NFC LLCP.
    NFC_LLCP,
    /// InfiniBand.
    INFINIBAND,
    /// SCTP packets.
    SCTP,
    /// USB, USBPcap.
    USBPCAP,
    /// SEL RTAC serial line.
    RTAC_SERIAL,
    /// Bluetooth Low Energy link layer.
    BLUETOOTH_LE_LL,
    /// Linux netlink.
    NETLINK,
    /// Bluetooth Linux monitor.
    BLUETOOTH_LINUX_MONITOR,
    /// Bluetooth Basic Rate and Enhanced Data Rate baseband.
    BLUETOOTH_BREDR_BB,
    /// Bluetooth Low Energy link layer with pseudo-header.
    BLUETOOTH_LE_LL_WITH_PHDR,
    /// PROFIBUS data link layer.
    PROFIBUS_DL,
    /// Apple PKTAP.
    PKTAP,
    /// Ethernet Passive Optical Network.
    EPON,
    /// IPMI HPM.2 trace.
    IPMI_HPM_2,
    /// Z-Wave R1 and R2.
    ZWAVE_R1_R2,
    /// Z-Wave R3.
    ZWAVE_R3,
    /// WattStopper DLM.
    WATTSTOPPER_DLM,
    /// ISO 14443 contactless smartcards.
    ISO_14443,
    /// IEC 62106 Radio Data System groups.
    RDS,
    /// USB, Darwin style.
    USB_DARWIN,
    /// SDLC.
    SDLC,
    /// LoRaTap header and LoRaWAN.
    LORATAP,
    /// Linux vsock.
    VSOCK,
    /// nRF Sniffer for Bluetooth LE.
    NORDIC_BLE,
    /// DOCSIS with Excentis XRA pseudo-header.
    DOCSIS31_XRA31,
    /// IEEE 802.3br mPackets.
    ETHERNET_MPACKET,
    /// DisplayPort AUX channel.
    DISPLAYPORT_AUX,
    /// Linux "cooked" capture, version 2.
    LINUX_SLL2,
    /// A code that no variant above stands for.
    Unknown(u32),
}

impl DataLink {
    /// The registry code of this link type.
    pub open spec fn spec_code(self) -> u32 {
        match self {
            DataLink::NULL => 0,
            DataLink::ETHERNET => 1,
            DataLink::EXP_ETHERNET => 2,
            DataLink::AX25 => 3,
            DataLink::PRONET => 4,
            DataLink::CHAOS => 5,
            DataLink::IEEE802_5 => 6,
            DataLink::ARCNET_BSD => 7,
            DataLink::SLIP => 8,
            DataLink::PPP => 9,
            DataLink::FDDI => 10,
            DataLink::PPP_HDLC => 50,
            DataLink::PPP_ETHER => 51,
            DataLink::ATM_RFC1483 => 100,
            DataLink::RAW => 101,
            DataLink::C_HDLC => 104,
            DataLink::IEEE802_11 => 105,
            DataLink::FRELAY => 107,
            DataLink::LOOP => 108,
            DataLink::LINUX_SLL => 113,
            DataLink::LTALK => 114,
            DataLink::PFLOG => 117,
            DataLink::IEEE802_11_PRISM => 119,
            DataLink::IP_OVER_FC => 122,
            DataLink::SUNATM => 123,
            DataLink::IEEE802_11_RADIOTAP => 127,
            DataLink::ARCNET_LINUX => 129,
            DataLink::APPLE_IP_OVER_IEEE1394 => 138,
            DataLink::MTP2_WITH_PHDR => 139,
            DataLink::MTP2 => 140,
            DataLink::MTP3 => 141,
            DataLink::SCCP => 142,
            DataLink::DOCSIS => 143,
            DataLink::LINUX_IRDA => 144,
            DataLink::IEEE802_11_AVS => 163,
            DataLink::BACNET_MS_TP => 165,
            DataLink::PPP_PPPD => 166,
            DataLink::GPRS_LLC => 169,
            DataLink::LINUX_LAPD => 177,
            DataLink::BLUETOOTH_HCI_H4 => 187,
            DataLink::USB_LINUX => 189,
            DataLink::PPI => 192,
            DataLink::IEEE802_15_4 => 195,
            DataLink::SITA => 196,
            DataLink::ERF => 197,
            DataLink::BLUETOOTH_HCI_H4_WITH_PHDR => 201,
            DataLink::AX25_KISS => 202,
            DataLink::LAPD => 203,
            DataLink::PPP_WITH_DIR => 204,
            DataLink::C_HDLC_WITH_DIR => 205,
            DataLink::FRELAY_WITH_DIR => 206,
            DataLink::IPMB_LINUX => 209,
            DataLink::IEEE802_15_4_NONASK_PHY => 215,
            DataLink::USB_LINUX_MMAPPED => 220,
            DataLink::FC_2 => 224,
            DataLink::FC_2_WITH_FRAME_DELIMS => 225,
            DataLink::IPNET => 226,
            DataLink::CAN_SOCKETCAN => 227,
            DataLink::IPV4 => 228,
            DataLink::IPV6 => 229,
            DataLink::IEEE802_15_4_NOFCS => 230,
            DataLink::DBUS => 231,
            DataLink::DVB_CI => 235,
            DataLink::MUX27010 => 236,
            DataLink::STANAG_5066_D_PDU => 237,
            DataLink::NFLOG => 239,
            DataLink::NETANALYZER => 240,
            DataLink::NETANALYZER_TRANSPARENT => 241,
            DataLink::IPOIB => 242,
            DataLink::MPEG_2_TS => 243,
            DataLink::NG40 => 244,
            DataLink::NFC_LLCP => 245,
            DataLink::INFINIBAND => 247,
            DataLink::SCTP => 248,
            DataLink::USBPCAP => 249,
            DataLink::RTAC_SERIAL => 250,
            DataLink::BLUETOOTH_LE_LL => 251,
            DataLink::NETLINK => 253,
            DataLink::BLUETOOTH_LINUX_MONITOR => 254,
            DataLink::BLUETOOTH_BREDR_BB => 255,
            DataLink::BLUETOOTH_LE_LL_WITH_PHDR => 256,
            DataLink::PROFIBUS_DL => 257,
            DataLink::PKTAP => 258,
            DataLink::EPON => 259,
            DataLink::IPMI_HPM_2 => 260,
            DataLink::ZWAVE_R1_R2 => 261,
            DataLink::ZWAVE_R3 => 262,
            DataLink::WATTSTOPPER_DLM => 263,
            DataLink::ISO_14443 => 264,
            DataLink::RDS => 265,
            DataLink::USB_DARWIN => 266,
            DataLink::SDLC => 268,
            DataLink::LORATAP => 270,
            DataLink::VSOCK => 271,
            DataLink::NORDIC_BLE => 272,
            DataLink::DOCSIS31_XRA31 => 273,
            DataLink::ETHERNET_MPACKET => 274,
            DataLink::DISPLAYPORT_AUX => 275,
            DataLink::LINUX_SLL2 => 276,
            DataLink::Unknown(code) => code,
        }
    }

    /// An `Unknown` link type holds a code that no named variant has.
    pub open spec fn is_wf(self) -> bool {
        self matches DataLink::Unknown(code) ==> !is_registered(code)
    }

    /// The link type that registry code `code` stands for.
    pub fn from_u32(code: u32) -> (r: DataLink)
        ensures
            r == datalink_of(code),
            r.is_wf(),
    {
        match code {
            0 => DataLink::NULL,
            1 => DataLink::ETHERNET,
            2 => DataLink::EXP_ETHERNET,
            3 => DataLink::AX25,
            4 => DataLink::PRONET,
            5 => DataLink::CHAOS,
            6 => DataLink::IEEE802_5,
            7 => DataLink::ARCNET_BSD,
            8 => DataLink::SLIP,
            9 => DataLink::PPP,
            10 => DataLink::FDDI,
            50 => DataLink::PPP_HDLC,
            51 => DataLink::PPP_ETHER,
            100 => DataLink::ATM_RFC1483,
            101 => DataLink::RAW,
            104 => DataLink::C_HDLC,
            105 => DataLink::IEEE802_11,
            107 => DataLink::FRELAY,
            108 => DataLink::LOOP,
            113 => DataLink::LINUX_SLL,
            114 => DataLink::LTALK,
            117 => DataLink::PFLOG,
            119 => DataLink::IEEE802_11_PRISM,
            122 => DataLink::IP_OVER_FC,
            123 => DataLink::SUNATM,
            127 => DataLink::IEEE802_11_RADIOTAP,
            129 => DataLink::ARCNET_LINUX,
            138 => DataLink::APPLE_IP_OVER_IEEE1394,
            139 => DataLink::MTP2_WITH_PHDR,
            140 => DataLink::MTP2,
            141 => DataLink::MTP3,
            142 => DataLink::SCCP,
            143 => DataLink::DOCSIS,
            144 => DataLink::LINUX_IRDA,
            163 => DataLink::IEEE802_11_AVS,
            165 => DataLink::BACNET_MS_TP,
            166 => DataLink::PPP_PPPD,
            169 => DataLink::GPRS_LLC,
            177 => DataLink::LINUX_LAPD,
            187 => DataLink::BLUETOOTH_HCI_H4,
            189 => DataLink::USB_LINUX,
            192 => DataLink::PPI,
            195 => DataLink::IEEE802_15_4,
            196 => DataLink::SITA,
            197 => DataLink::ERF,
            201 => DataLink::BLUETOOTH_HCI_H4_WITH_PHDR,
            202 => DataLink::AX25_KISS,
            203 => DataLink::LAPD,
            204 => DataLink::PPP_WITH_DIR,
            205 => DataLink::C_HDLC_WITH_DIR,
            206 => DataLink::FRELAY_WITH_DIR,
            209 => DataLink::IPMB_LINUX,
            215 => DataLink::IEEE802_15_4_NONASK_PHY,
            220 => DataLink::USB_LINUX_MMAPPED,
            224 => DataLink::FC_2,
            225 => DataLink::FC_2_WITH_FRAME_DELIMS,
            226 => DataLink::IPNET,
            227 => DataLink::CAN_SOCKETCAN,
            228 => DataLink::IPV4,
            229 => DataLink::IPV6,
            230 => DataLink::IEEE802_15_4_NOFCS,
            231 => DataLink::DBUS,
            235 => DataLink::DVB_CI,
            236 => DataLink::MUX27010,
            237 => DataLink::STANAG_5066_D_PDU,
            239 => DataLink::NFLOG,
            240 => DataLink::NETANALYZER,
            241 => DataLink::NETANALYZER_TRANSPARENT,
            242 => DataLink::IPOIB,
            243 => DataLink::MPEG_2_TS,
            244 => DataLink::NG40,
            245 => DataLink::NFC_LLCP,
            247 => DataLink::INFINIBAND,
            248 => DataLink::SCTP,
            249 => DataLink::USBPCAP,
            250 => DataLink::RTAC_SERIAL,
            251 => DataLink::BLUETOOTH_LE_LL,
            253 => DataLink::NETLINK,
            254 => DataLink::BLUETOOTH_LINUX_MONITOR,
            255 => DataLink::BLUETOOTH_BREDR_BB,
            256 => DataLink::BLUETOOTH_LE_LL_WITH_PHDR,
            257 => DataLink::PROFIBUS_DL,
            258 => DataLink::PKTAP,
            259 => DataLink::EPON,
            260 => DataLink::IPMI_HPM_2,
            261 => DataLink::ZWAVE_R1_R2,
            262 => DataLink::ZWAVE_R3,
            263 => DataLink::WATTSTOPPER_DLM,
            264 => DataLink::ISO_14443,
            265 => DataLink::RDS,
            266 => DataLink::USB_DARWIN,
            268 => DataLink::SDLC,
            270 => DataLink::LORATAP,
            271 => DataLink::VSOCK,
            272 => DataLink::NORDIC_BLE,
            273 => DataLink::DOCSIS31_XRA31,
            274 => DataLink::ETHERNET_MPACKET,
            275 => DataLink::DISPLAYPORT_AUX,
            276 => DataLink::LINUX_SLL2,
            _ => DataLink::Unknown(code),
        }
    }
}

/// Whether a named variant stands for `code`.
pub open spec fn is_registered(code: u32) -> bool {
    !(datalink_of(code) is Unknown)
}

/// The link type that the registry code `code` stands for.
pub open spec fn datalink_of(code: u32) -> DataLink {
    match code {
        0 => DataLink::NULL,
        1 => DataLink::ETHERNET,
        2 => DataLink::EXP_ETHERNET,
        3 => DataLink::AX25,
        4 => DataLink::PRONET,
        5 => DataLink::CHAOS,
        6 => DataLink::IEEE802_5,
        7 => DataLink::ARCNET_BSD,
        8 => DataLink::SLIP,
        9 => DataLink::PPP,
        10 => DataLink::FDDI,
        50 => DataLink::PPP_HDLC,
        51 => DataLink::PPP_ETHER,
        100 => DataLink::ATM_RFC1483,
        101 => DataLink::RAW,
        104 => DataLink::C_HDLC,
        105 => DataLink::IEEE802_11,
        107 => DataLink::FRELAY,
        108 => DataLink::LOOP,
        113 => DataLink::LINUX_SLL,
        114 => DataLink::LTALK,
        117 => DataLink::PFLOG,
        119 => DataLink::IEEE802_11_PRISM,
        122 => DataLink::IP_OVER_FC,
        123 => DataLink::SUNATM,
        127 => DataLink::IEEE802_11_RADIOTAP,
        129 => DataLink::ARCNET_LINUX,
        138 => DataLink::APPLE_IP_OVER_IEEE1394,
        139 => DataLink::MTP2_WITH_PHDR,
        140 => DataLink::MTP2,
        141 => DataLink::MTP3,
        142 => DataLink::SCCP,
        143 => DataLink::DOCSIS,
        144 => DataLink::LINUX_IRDA,
        163 => DataLink::IEEE802_11_AVS,
        165 => DataLink::BACNET_MS_TP,
        166 => DataLink::PPP_PPPD,
        169 => DataLink::GPRS_LLC,
        177 => DataLink::LINUX_LAPD,
        187 => DataLink::BLUETOOTH_HCI_H4,
        189 => DataLink::USB_LINUX,
        192 => DataLink::PPI,
        195 => DataLink::IEEE802_15_4,
        196 => DataLink::SITA,
        197 => DataLink::ERF,
        201 => DataLink::BLUETOOTH_HCI_H4_WITH_PHDR,
        202 => DataLink::AX25_KISS,
        203 => DataLink::LAPD,
        204 => DataLink::PPP_WITH_DIR,
        205 => DataLink::C_HDLC_WITH_DIR,
        206 => DataLink::FRELAY_WITH_DIR,
        209 => DataLink::IPMB_LINUX,
        215 => DataLink::IEEE802_15_4_NONASK_PHY,
        220 => DataLink::USB_LINUX_MMAPPED,
        224 => DataLink::FC_2,
        225 => DataLink::FC_2_WITH_FRAME_DELIMS,
        226 => DataLink::IPNET,
        227 => DataLink::CAN_SOCKETCAN,
        228 => DataLink::IPV4,
        229 => DataLink::IPV6,
        230 => DataLink::IEEE802_15_4_NOFCS,
        231 => DataLink::DBUS,
        235 => DataLink::DVB_CI,
        236 => DataLink::MUX27010,
        237 => DataLink::STANAG_5066_D_PDU,
        239 => DataLink::NFLOG,
        240 => DataLink::NETANALYZER,
        241 => DataLink::NETANALYZER_TRANSPARENT,
        242 => DataLink::IPOIB,
        243 => DataLink::MPEG_2_TS,
        244 => DataLink::NG40,
        245 => DataLink::NFC_LLCP,
        247 => DataLink::INFINIBAND,
        248 => DataLink::SCTP,
        249 => DataLink::USBPCAP,
        250 => DataLink::RTAC_SERIAL,
        251 => DataLink::BLUETOOTH_LE_LL,
        253 => DataLink::NETLINK,
        254 => DataLink::BLUETOOTH_LINUX_MONITOR,
        255 => DataLink::BLUETOOTH_BREDR_BB,
        256 => DataLink::BLUETOOTH_LE_LL_WITH_PHDR,
        257 => DataLink::PROFIBUS_DL,
        258 => DataLink::PKTAP,
        259 => DataLink::EPON,
        260 => DataLink::IPMI_HPM_2,
        261 => DataLink::ZWAVE_R1_R2,
        262 => DataLink::ZWAVE_R3,
        263 => DataLink::WATTSTOPPER_DLM,
        264 => DataLink::ISO_14443,
        265 => DataLink::RDS,
        266 => DataLink::USB_DARWIN,
        268 => DataLink::SDLC,
        270 => DataLink::LORATAP,
        271 => DataLink::VSOCK,
        272 => DataLink::NORDIC_BLE,
        273 => DataLink::DOCSIS31_XRA31,
        274 => DataLink::ETHERNET_MPACKET,
        275 => DataLink::DISPLAYPORT_AUX,
        276 => DataLink::LINUX_SLL2,
        _ => DataLink::Unknown(code),
    }
}

/// A well-formed link type is the one that its own code stands for.
pub proof fn lemma_datalink_of_code(d: DataLink)
    requires
        d.is_wf(),
    ensures
        datalink_of(d.spec_code()) == d,
{
}

} // verus!
