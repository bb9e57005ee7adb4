//! The filter-program source fragments the composition engine works from:
//! one base template per program type, and the nested map-declaration and
//! action fragments that enabled lists expand into.  Each text is exposed
//! twice — once as a specification-level character sequence, once as the
//! executable string — so that the engine's contracts can speak about the
//! exact template contents.

use vstd::prelude::*;

verus! {

/// The base template for the source-address filtering program.
pub open spec fn base_ip_view() -> Seq<char> {
    "// clang-format off\n#include \"vmlinux.h\"\n#include <bpf/bpf_helpers.h>\n// clang-format on\n\nstruct Data {\n    __u32 ip;\n\t__u64 rx_packets;\n  __u64 fast_packets;\n    __u64 last_access_ns;\n};\n\nstatic __u64 MS_IN_NS = 100000;\n\n{{whitelist_map}}\n\n{{blacklist_map}}\n\n{{graylist_map}}\n\nSEC(\"xdp\")\nint {{name}}(struct xdp_md *ctx) {\n    void *data = (void *)(long)ctx->data;\n    void *data_end = (void *)(long)ctx->data_end;\n\n    // Check Ethernet header size\n    if (data + sizeof(struct ethhdr) > data_end)\n        return XDP_PASS;\n\n    struct ethhdr *eth = data;\n\n    // Check IP header size\n    struct iphdr *ip = data + sizeof(struct ethhdr);\n    if (data + sizeof(struct ethhdr) + sizeof(struct iphdr) > data_end)\n        return XDP_PASS;\n\n    if(ip->protocol != IPPROTO_TCP) {\n        return XDP_PASS;\n    }\n\n    // Extract source IP address\n    __u32 src_ip = ip->saddr;\n\n    {{whitelist_action}}\n\n    {{blacklist_action}}\n\n    {{graylist_action}}\n\n    return {{default_action}};\n}\n\n\nchar __license[] SEC(\"license\") = \"GPL\";\n"@
}

/// The base template for the source-address filtering program.
pub fn base_ip_text() -> (r: &'static str)
    ensures
        r@ == base_ip_view(),
{
    "// clang-format off\n#include \"vmlinux.h\"\n#include <bpf/bpf_helpers.h>\n// clang-format on\n\nstruct Data {\n    __u32 ip;\n\t__u64 rx_packets;\n  __u64 fast_packets;\n    __u64 last_access_ns;\n};\n\nstatic __u64 MS_IN_NS = 100000;\n\n{{whitelist_map}}\n\n{{blacklist_map}}\n\n{{graylist_map}}\n\nSEC(\"xdp\")\nint {{name}}(struct xdp_md *ctx) {\n    void *data = (void *)(long)ctx->data;\n    void *data_end = (void *)(long)ctx->data_end;\n\n    // Check Ethernet header size\n    if (data + sizeof(struct ethhdr) > data_end)\n        return XDP_PASS;\n\n    struct ethhdr *eth = data;\n\n    // Check IP header size\n    struct iphdr *ip = data + sizeof(struct ethhdr);\n    if (data + sizeof(struct ethhdr) + sizeof(struct iphdr) > data_end)\n        return XDP_PASS;\n\n    if(ip->protocol != IPPROTO_TCP) {\n        return XDP_PASS;\n    }\n\n    // Extract source IP address\n    __u32 src_ip = ip->saddr;\n\n    {{whitelist_action}}\n\n    {{blacklist_action}}\n\n    {{graylist_action}}\n\n    return {{default_action}};\n}\n\n\nchar __license[] SEC(\"license\") = \"GPL\";\n"
}

/// The base template for the name-resolution filtering program.
pub open spec fn base_dns_view() -> Seq<char> {
    "// clang-format off\n#include \"vmlinux.h\"\n#include <bpf/bpf_helpers.h>\n// clang-format on\n\n#define htons(x) __builtin_bswap16(x)\n\nstruct Data {\n  __u32 ip;\n  __u64 rx_packets;\n  __u64 fast_packets;\n  __u64 last_access_ns;\n};\n\n{{whitelist_map}}\n{{blacklist_map}}\n\nSEC(\"xdp\")\nint {{name}}(struct xdp_md *ctx) {\n    void *data = (void *)(long)ctx->data;\n    void *data_end = (void *)(long)ctx->data_end;\n\n    // Check Ethernet header size\n    if (data + sizeof(struct ethhdr) > data_end)\n      return XDP_PASS;\n\n    struct ethhdr *eth = data;\n\n    // Check IP header size\n    struct iphdr *ip = data + sizeof(struct ethhdr);\n    if (data + sizeof(struct ethhdr) + sizeof(struct iphdr) > data_end)\n      return XDP_PASS;\n\n    if (ip->protocol != IPPROTO_UDP) {\n      return XDP_PASS;\n    }\n\n    struct udphdr *udp = (data + sizeof(struct ethhdr) + sizeof(struct iphdr));\n    if ((void *)(udp + 1) > data_end) {\n      return XDP_PASS; // Bounds check for UDP header\n    }\n\n    __u32 dst = ip->saddr;\n\n    if (udp->dest != htons(53) && udp->source != htons(53)) {\n      return XDP_PASS;\n    }\n    // Extract destination IP address\n\n    {{whitelist_action}}\n    {{blacklist_action}}\n\n\n  return {{default_action}};\n}\n\nchar __license[] SEC(\"license\") = \"GPL\";\n"@
}

/// The base template for the name-resolution filtering program.
pub fn base_dns_text() -> (r: &'static str)
    ensures
        r@ == base_dns_view(),
{
    "// clang-format off\n#include \"vmlinux.h\"\n#include <bpf/bpf_helpers.h>\n// clang-format on\n\n#define htons(x) __builtin_bswap16(x)\n\nstruct Data {\n  __u32 ip;\n  __u64 rx_packets;\n  __u64 fast_packets;\n  __u64 last_access_ns;\n};\n\n{{whitelist_map}}\n{{blacklist_map}}\n\nSEC(\"xdp\")\nint {{name}}(struct xdp_md *ctx) {\n    void *data = (void *)(long)ctx->data;\n    void *data_end = (void *)(long)ctx->data_end;\n\n    // Check Ethernet header size\n    if (data + sizeof(struct ethhdr) > data_end)\n      return XDP_PASS;\n\n    struct ethhdr *eth = data;\n\n    // Check IP header size\n    struct iphdr *ip = data + sizeof(struct ethhdr);\n    if (data + sizeof(struct ethhdr) + sizeof(struct iphdr) > data_end)\n      return XDP_PASS;\n\n    if (ip->protocol != IPPROTO_UDP) {\n      return XDP_PASS;\n    }\n\n    struct udphdr *udp = (data + sizeof(struct ethhdr) + sizeof(struct iphdr));\n    if ((void *)(udp + 1) > data_end) {\n      return XDP_PASS; // Bounds check for UDP header\n    }\n\n    __u32 dst = ip->saddr;\n\n    if (udp->dest != htons(53) && udp->source != htons(53)) {\n      return XDP_PASS;\n    }\n    // Extract destination IP address\n\n    {{whitelist_action}}\n    {{blacklist_action}}\n\n\n  return {{default_action}};\n}\n\nchar __license[] SEC(\"license\") = \"GPL\";\n"
}

/// The map-declaration fragment shared by all lists.
pub open spec fn map_tpl_view() -> Seq<char> {
    "#define {{name}}map\nstruct {\n\t__uint(type, BPF_MAP_TYPE_LRU_HASH);\n\t__type(key, __u32);\n\t__type(value, struct Data);\n\t__uint(max_entries, {{max}});\n} {{name}} SEC(\".maps\");\n"@
}

/// The map-declaration fragment shared by all lists.
pub fn map_tpl_text() -> (r: &'static str)
    ensures
        r@ == map_tpl_view(),
{
    "#define {{name}}map\nstruct {\n\t__uint(type, BPF_MAP_TYPE_LRU_HASH);\n\t__type(key, __u32);\n\t__type(value, struct Data);\n\t__uint(max_entries, {{max}});\n} {{name}} SEC(\".maps\");\n"
}

/// The lookup preamble that keys a list's map by the source address.
pub open spec fn get_data_ip_view() -> Seq<char> {
    "struct Data *{{list}}_data = bpf_map_lookup_elem(&{{list}}, &src_ip);"@
}

/// The lookup preamble that keys a list's map by the source address.
pub fn get_data_ip_text() -> (r: &'static str)
    ensures
        r@ == get_data_ip_view(),
{
    "struct Data *{{list}}_data = bpf_map_lookup_elem(&{{list}}, &src_ip);"
}

/// The lookup preamble that keys a list's map by the queried address.
pub open spec fn get_data_dns_view() -> Seq<char> {
    "struct Data *{{list}}_data = bpf_map_lookup_elem(&{{list}}, &dst);"@
}

/// The lookup preamble that keys a list's map by the queried address.
pub fn get_data_dns_text() -> (r: &'static str)
    ensures
        r@ == get_data_dns_view(),
{
    "struct Data *{{list}}_data = bpf_map_lookup_elem(&{{list}}, &dst);"
}

/// The pass/drop action fragment for the plain lists.
pub open spec fn action_tpl_view() -> Seq<char> {
    "if ({{list}}_data) {\n\t\treturn {{action}};\n\t}\n"@
}

/// The pass/drop action fragment for the plain lists.
pub fn action_tpl_text() -> (r: &'static str)
    ensures
        r@ == action_tpl_view(),
{
    "if ({{list}}_data) {\n\t\treturn {{action}};\n\t}\n"
}

/// The rate-limiting action fragment: the embedded reputation state
/// machine, with promotion into the deny list and decay after idleness.
pub open spec fn gray_tpl_view() -> Seq<char> {
    "if ({{list}}_data) {\n    __u64 time = (__u64){{frequency}} * MS_IN_NS;\n    if (bpf_ktime_get_ns() - {{list}}_data->last_access_ns < time) {\n        __sync_fetch_and_add(&{{list}}_data->fast_packets, 1);\n\n    #ifdef blacklistmap\n        if ({{list}}_data->fast_packets >= {{fast_packet_count}}) {\n            struct Data new = {src_ip, {{list}}_data->rx_packets, {{list}}_data->fast_packets, bpf_ktime_get_ns()};\n            bpf_map_update_elem(&blacklist, &src_ip, &new, BPF_NOEXIST);\n            return XDP_DROP;\n        }\n    #endif\n    } else if (bpf_ktime_get_ns() - {{list}}_data->last_access_ns > time * 100) {\n        #ifdef blacklistmap\n        struct Data new = (struct Data){src_ip, {{list}}_data->rx_packets, 0, bpf_ktime_get_ns()};\n        bpf_map_update_elem(&{{list}}, &src_ip, &new, BPF_EXIST);\n        #endif\n    }\n    __sync_fetch_and_add(&{{list}}_data->rx_packets, 1);\n    __sync_fetch_and_add(&{{list}}_data->last_access_ns, bpf_ktime_get_ns() - {{list}}_data->last_access_ns);\n} else {\n    struct Data new = {src_ip, 1, 0,bpf_ktime_get_ns()};\n    bpf_map_update_elem(&{{list}}, &src_ip, &new, BPF_NOEXIST);\n}\n"@
}

/// The rate-limiting action fragment: the embedded reputation state
/// machine, with promotion into the deny list and decay after idleness.
pub fn gray_tpl_text() -> (r: &'static str)
    ensures
        r@ == gray_tpl_view(),
{
    "if ({{list}}_data) {\n    __u64 time = (__u64){{frequency}} * MS_IN_NS;\n    if (bpf_ktime_get_ns() - {{list}}_data->last_access_ns < time) {\n        __sync_fetch_and_add(&{{list}}_data->fast_packets, 1);\n\n    #ifdef blacklistmap\n        if ({{list}}_data->fast_packets >= {{fast_packet_count}}) {\n            struct Data new = {src_ip, {{list}}_data->rx_packets, {{list}}_data->fast_packets, bpf_ktime_get_ns()};\n            bpf_map_update_elem(&blacklist, &src_ip, &new, BPF_NOEXIST);\n            return XDP_DROP;\n        }\n    #endif\n    } else if (bpf_ktime_get_ns() - {{list}}_data->last_access_ns > time * 100) {\n        #ifdef blacklistmap\n        struct Data new = (struct Data){src_ip, {{list}}_data->rx_packets, 0, bpf_ktime_get_ns()};\n        bpf_map_update_elem(&{{list}}, &src_ip, &new, BPF_EXIST);\n        #endif\n    }\n    __sync_fetch_and_add(&{{list}}_data->rx_packets, 1);\n    __sync_fetch_and_add(&{{list}}_data->last_access_ns, bpf_ktime_get_ns() - {{list}}_data->last_access_ns);\n} else {\n    struct Data new = {src_ip, 1, 0,bpf_ktime_get_ns()};\n    bpf_map_update_elem(&{{list}}, &src_ip, &new, BPF_NOEXIST);\n}\n"
}

} // verus!
