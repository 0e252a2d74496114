pub mod dnsimple;
