pub mod radiofrance;
pub mod reverbnation;
pub mod short_form;
pub mod streams;
pub mod platforms_c;
pub mod blogger;
pub mod cozytv;
pub mod livestreamfails;
pub mod masters;
pub mod mir24;
pub mod radio_de;
pub mod radio_zet;
pub mod roya;
pub mod this_american_life;
pub mod worldstar;
pub mod altcensored;
pub mod bongacams;
pub mod crowdbunker;
pub mod gab;
pub mod gettr;
pub mod peertube;
pub mod peertube_playlist;
pub mod vidlii;
pub mod rumble;
pub mod slideshare;
pub mod soundgasm;
pub mod generic;
pub mod event;
pub mod jwplatform;
pub mod pages;
pub mod podcasts;
pub mod graspop;
pub mod ku6;
pub mod matchtv;
pub mod screenrec;
pub mod bild;
pub mod cineteca;
pub mod ebay;
pub mod elonet;
pub mod filmarchiv;
pub mod glide;
pub mod golem;
pub mod imgur;
pub mod myvidster;
pub mod netzkino;
pub mod ninegag;
pub mod nuevo;
pub mod screen9;
pub mod sen;
pub mod stream_cz;
pub mod unistra;
pub mod video;
pub mod sports;
